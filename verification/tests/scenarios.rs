use redlock::acquire::{Acquisition, LoopAction, LoopEvent};
use redlock::lock::{Attempt, Outcome, Redlock};
use redlock::request::{LockRequest, SetReply, UnlockRequest, UNLOCK_SCRIPT};
use std::collections::HashMap;

/// One storage instance, kept in memory.
struct Node {
    up: bool,
    entries: HashMap<String, (String, u128)>,
}

impl Node {
    fn live(&self, key: &str, now_ms: u128) -> Option<&str> {
        match self.entries.get(key) {
            Some((value, expires_at)) if now_ms < *expires_at => Some(value.as_str()),
            _ => None,
        }
    }
}

/// Storage instances by address, a clock, and a record of what was sent.
struct Cluster {
    nodes: HashMap<String, Node>,
    now_ms: u128,
    latency_ms: u128,
    pauses: Vec<u64>,
    unlocks_sent: Vec<String>,
}

impl Cluster {
    fn new(addresses: &[String]) -> Cluster {
        let mut nodes = HashMap::new();
        for address in addresses {
            nodes.insert(address.clone(), Node { up: true, entries: HashMap::new() });
        }
        Cluster { nodes, now_ms: 0, latency_ms: 0, pauses: Vec::new(), unlocks_sent: Vec::new() }
    }

    fn take_down(&mut self, address: &str) {
        self.nodes.get_mut(address).unwrap().up = false;
    }

    fn owner(&self, address: &str, key: &str) -> Option<String> {
        self.nodes[address].live(key, self.now_ms).map(|value| value.to_string())
    }

    fn put(&mut self, address: &str, key: &str, value: &str, ttl_ms: u128) {
        let expires_at = self.now_ms + ttl_ms;
        self.nodes
            .get_mut(address)
            .unwrap()
            .entries
            .insert(key.to_string(), (value.to_string(), expires_at));
    }

    fn snapshot(&self) -> Vec<(String, String, String)> {
        let mut all = Vec::new();
        for (address, node) in &self.nodes {
            for key in node.entries.keys() {
                if let Some(value) = node.live(key, self.now_ms) {
                    all.push((address.clone(), key.clone(), value.to_string()));
                }
            }
        }
        all.sort();
        all
    }

    fn lock(&mut self, request: &LockRequest) -> SetReply {
        self.now_ms += self.latency_ms;
        let words = request.command();
        assert_eq!(words.len(), 6);
        assert_eq!(words[0], "SET");
        assert_eq!(words[3], "nx");
        assert_eq!(words[4], "px");
        let ttl_ms: u128 = words[5].parse().unwrap();
        let now_ms = self.now_ms;
        let node = self.nodes.get_mut(&request.server).unwrap();
        if !node.up || ttl_ms == 0 {
            return SetReply::Unreachable;
        }
        if node.live(&words[1], now_ms).is_some() {
            return SetReply::Exists;
        }
        node.entries.insert(words[1].clone(), (words[2].clone(), now_ms + ttl_ms));
        SetReply::Stored
    }

    fn unlock(&mut self, request: &UnlockRequest) -> Result<bool, ()> {
        assert!(UNLOCK_SCRIPT.contains("redis.call('get',KEYS[1]) == ARGV[1]"));
        self.now_ms += self.latency_ms;
        self.unlocks_sent.push(request.server.clone());
        let now_ms = self.now_ms;
        let node = self.nodes.get_mut(&request.server).unwrap();
        if !node.up {
            return Err(());
        }
        if node.live(&request.key, now_ms) == Some(request.value.as_str()) {
            node.entries.remove(&request.key);
            Ok(true)
        } else {
            Ok(false)
        }
    }

    fn release(&mut self, lock: &Redlock) {
        for request in lock.release() {
            let _ = self.unlock(&request);
        }
    }

    fn attempt(&mut self, servers: &Vec<String>, name: &str, ttl_ms: u64) -> Option<Redlock> {
        let attempt = Redlock::try_lock(servers, name, ttl_ms, self.now_ms);
        let mut replies = Vec::new();
        for request in attempt.requests() {
            replies.push(self.lock(&request));
        }
        match attempt.conclude(&replies, self.now_ms) {
            Outcome::Acquired(lock) => Some(lock),
            Outcome::Rejected(cleanup) => {
                for request in cleanup {
                    let _ = self.unlock(&request);
                }
                None
            }
        }
    }

    fn acquire(
        &mut self,
        servers: &Vec<String>,
        name: &str,
        ttl_secs: u64,
        timeout_secs: u64,
    ) -> (Result<Redlock, String>, usize) {
        let mut acquisition = Acquisition::new(servers, name, ttl_secs, timeout_secs, self.now_ms);
        let mut attempts = 0;
        let mut action = acquisition.action();
        loop {
            let event = match action {
                LoopAction::ReadClock => LoopEvent::Clock(self.now_ms),
                LoopAction::Lock(requests) => {
                    attempts += 1;
                    let mut replies = Vec::new();
                    for request in &requests {
                        replies.push(self.lock(request));
                    }
                    LoopEvent::Replied(replies, self.now_ms)
                }
                LoopAction::Unlock(requests) => {
                    for request in &requests {
                        let _ = self.unlock(request);
                    }
                    LoopEvent::Cleaned
                }
                LoopAction::Sleep(ms) => {
                    self.pauses.push(ms);
                    self.now_ms += ms as u128;
                    LoopEvent::Slept
                }
                LoopAction::Hold(lock) => return (Ok(lock), attempts),
                LoopAction::Fail(error) => return (Err(error.message()), attempts),
            };
            let next = acquisition.step(event);
            acquisition = next.0;
            action = next.1;
        }
    }
}

fn three() -> Vec<String> {
    vec![
        "redis://alpha".to_string(),
        "redis://beta".to_string(),
        "redis://gamma".to_string(),
    ]
}

#[test]
fn all_instances_healthy() {
    let servers = three();
    let mut cluster = Cluster::new(&servers);
    let (result, attempts) = cluster.acquire(&servers, "job", 60, 60);
    let lock = result.unwrap();
    assert_eq!(attempts, 1);
    assert!(cluster.pauses.is_empty());
    let text = uuid::Uuid::from_u128(lock.id()).to_string();
    for address in &servers {
        assert_eq!(cluster.owner(address, "job"), Some(text.clone()));
    }
    cluster.release(&lock);
    for address in &servers {
        assert_eq!(cluster.owner(address, "job"), None);
    }
    assert!(cluster.snapshot().is_empty());
}

#[test]
fn one_instance_unreachable() {
    let servers = three();
    let mut cluster = Cluster::new(&servers);
    cluster.take_down("redis://beta");
    let (result, attempts) = cluster.acquire(&servers, "job", 60, 60);
    let lock = result.unwrap();
    assert_eq!(attempts, 1);
    assert!(cluster.owner("redis://alpha", "job").is_some());
    assert!(cluster.owner("redis://gamma", "job").is_some());
    assert!(cluster.unlocks_sent.is_empty());
    cluster.release(&lock);
    assert_eq!(cluster.unlocks_sent, servers);
    assert!(cluster.snapshot().is_empty());
}

#[test]
fn only_one_instance_reachable() {
    let servers = three();
    let mut cluster = Cluster::new(&servers);
    cluster.take_down("redis://alpha");
    cluster.take_down("redis://gamma");
    let (result, attempts) = cluster.acquire(&servers, "job", 60, 60);
    assert_eq!(result.err().unwrap(), "failed to acquire lock job in 60 sec");
    assert_eq!(attempts, 600);
    assert_eq!(cluster.pauses.len(), 600);
    assert!(cluster.pauses.iter().all(|&ms| ms == 100));
    assert_eq!(cluster.now_ms, 60_000);
    assert_eq!(cluster.unlocks_sent.len(), 3 * 600);
    assert!(cluster.snapshot().is_empty());
}

#[test]
fn lock_taken_by_another_until_it_expires() {
    let servers = three();
    let mut cluster = Cluster::new(&servers);
    for address in &servers {
        cluster.put(address, "job", "someone-else", 1_050);
    }
    let (result, attempts) = cluster.acquire(&servers, "job", 60, 60);
    assert!(result.is_ok());
    assert_eq!(attempts, 12);
    assert_eq!(cluster.now_ms, 1_100);
}

#[test]
fn slow_replies_use_up_the_lease() {
    let servers = three();
    let mut cluster = Cluster::new(&servers);
    cluster.latency_ms = 400;
    assert!(cluster.attempt(&servers, "job", 1_200).is_none());
    assert_eq!(cluster.unlocks_sent, servers);
    assert!(cluster.snapshot().is_empty());
    assert!(cluster.attempt(&servers, "job", 1_201).is_some());
}

#[test]
fn releasing_twice_is_releasing_once() {
    let servers = three();
    let mut cluster = Cluster::new(&servers);
    cluster.put("redis://alpha", "other", "unrelated", 60_000);
    let lock = cluster.attempt(&servers, "job", 60_000).unwrap();
    cluster.release(&lock);
    let once = cluster.snapshot();
    cluster.release(&lock);
    let twice = cluster.snapshot();
    assert_eq!(once, twice);
    assert_eq!(
        once,
        vec![("redis://alpha".to_string(), "other".to_string(), "unrelated".to_string())]
    );
    cluster.release(&lock.clone());
    assert_eq!(cluster.snapshot(), once);
}

#[test]
fn release_leaves_a_later_owner_alone() {
    let servers = three();
    let mut cluster = Cluster::new(&servers);
    let first = cluster.attempt(&servers, "job", 1_000).unwrap();
    cluster.now_ms += 1_000;
    let second = cluster.attempt(&servers, "job", 60_000).unwrap();
    assert_ne!(first.id(), second.id());
    let held = cluster.snapshot();
    assert_eq!(held.len(), 3);
    cluster.release(&first);
    assert_eq!(cluster.snapshot(), held);
    let text = uuid::Uuid::from_u128(second.id()).to_string();
    for address in &servers {
        assert_eq!(cluster.owner(address, "job"), Some(text.clone()));
    }
    cluster.release(&second);
    assert!(cluster.snapshot().is_empty());
}

#[test]
fn failed_attempt_leaves_the_holder_alone() {
    let servers = three();
    let mut cluster = Cluster::new(&servers);
    let holder = cluster.attempt(&servers, "job", 60_000).unwrap();
    let held = cluster.snapshot();
    assert!(cluster.attempt(&servers, "job", 60_000).is_none());
    assert_eq!(cluster.snapshot(), held);
    cluster.release(&holder);
    assert!(cluster.attempt(&servers, "job", 60_000).is_some());
}

/// A contender whose commands are sent one at a time.
struct Contender {
    attempt: Option<Attempt>,
    requests: Vec<LockRequest>,
    replies: Vec<SetReply>,
    started_ms: u128,
    ttl_ms: u64,
}

impl Contender {
    fn begin(cluster: &Cluster, servers: &Vec<String>, ttl_ms: u64) -> Contender {
        let attempt = Redlock::try_lock(servers, "job", ttl_ms, cluster.now_ms);
        let requests = attempt.requests();
        Contender {
            attempt: Some(attempt),
            requests,
            replies: Vec::new(),
            started_ms: cluster.now_ms,
            ttl_ms,
        }
    }

    fn send_next(&mut self, cluster: &mut Cluster) {
        let request = &self.requests[self.replies.len()];
        let reply = cluster.lock(request);
        self.replies.push(reply);
    }

    /// The span of time in which the handle is in force, if there is one.
    fn conclude(&mut self, cluster: &mut Cluster) -> Option<(u128, u128)> {
        let attempt = self.attempt.take().unwrap();
        match attempt.conclude(&self.replies, cluster.now_ms) {
            Outcome::Acquired(_) => Some((cluster.now_ms, self.started_ms + self.ttl_ms as u128)),
            Outcome::Rejected(cleanup) => {
                for request in cleanup {
                    let _ = cluster.unlock(&request);
                }
                None
            }
        }
    }
}

#[test]
fn at_most_one_of_two_contenders_wins() {
    let servers = three();
    for pattern in 0u32..64 {
        if pattern.count_ones() != 3 {
            continue;
        }
        let mut cluster = Cluster::new(&servers);
        let mut first = Contender::begin(&cluster, &servers, 60_000);
        let mut second = Contender::begin(&cluster, &servers, 60_000);
        for slot in 0..6 {
            if pattern & (1 << slot) != 0 {
                first.send_next(&mut cluster);
            } else {
                second.send_next(&mut cluster);
            }
        }
        let a = first.conclude(&mut cluster);
        let b = second.conclude(&mut cluster);
        assert!(!(a.is_some() && b.is_some()), "pattern {:06b}", pattern);
    }
}

#[test]
fn handles_of_two_contenders_are_never_in_force_together() {
    let servers = three();
    let mut seed: u64 = 0x2545_f491_4f6c_dd1d;
    let mut next = |bound: u64| -> u64 {
        seed ^= seed << 13;
        seed ^= seed >> 7;
        seed ^= seed << 17;
        seed % bound
    };
    let mut both = 0;
    for _ in 0..2_000 {
        let mut cluster = Cluster::new(&servers);
        let mut first = Contender::begin(&cluster, &servers, 20 + next(60));
        cluster.now_ms += next(30) as u128;
        let mut second = Contender::begin(&cluster, &servers, 20 + next(60));
        let mut span_first = None;
        let mut span_second = None;
        let mut left_first = 3;
        let mut left_second = 3;
        while left_first > 0 || left_second > 0 {
            cluster.now_ms += next(25) as u128;
            let pick_first = left_second == 0 || (left_first > 0 && next(2) == 0);
            if pick_first {
                first.send_next(&mut cluster);
                left_first -= 1;
                if left_first == 0 {
                    span_first = first.conclude(&mut cluster);
                }
            } else {
                second.send_next(&mut cluster);
                left_second -= 1;
                if left_second == 0 {
                    span_second = second.conclude(&mut cluster);
                }
            }
        }
        if let (Some((from_a, until_a)), Some((from_b, until_b))) = (span_first, span_second) {
            both += 1;
            assert!(until_a <= from_b || until_b <= from_a);
        }
    }
    assert!(both > 0);
}
