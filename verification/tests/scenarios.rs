use leaderchip_etcd::error::{CampaignError, LeaseError};
use leaderchip_etcd::lease::{
    acquire_lease, keep_alive_task, Lease, LeaseAction, LeaseEvent, LeasePhase, RenewalInterval,
};
use leaderchip_etcd::leader::{
    handle_leadership, request_leadership, Leadership, LeadershipCommand, LeadershipEvent,
    LeadershipPhase, LeadershipStatus, LeadershipStep,
};

/// One lease as the stand-in service keeps it.
struct Granted {
    id: i64,
    ttl: i64,
    deadline: u64,
}

/// A coordination service in memory, with a clock in milliseconds: leases
/// lapse at their deadline unless renewed, and the election key goes to the
/// first live lease that campaigns while it is free.
struct Service {
    now: u64,
    next_id: i64,
    leases: Vec<Granted>,
    holder: Option<i64>,
    down: bool,
    grants: u32,
    renewals: u32,
}

impl Service {
    fn new() -> Service {
        Service { now: 0, next_id: 1000, leases: Vec::new(), holder: None, down: false, grants: 0, renewals: 0 }
    }

    fn live(&self, id: i64) -> bool {
        self.leases.iter().any(|lease| lease.id == id)
    }

    fn lease_ids(&self) -> Vec<i64> {
        self.leases.iter().map(|lease| lease.id).collect()
    }

    fn grant(&mut self, ttl: i64) -> Option<i64> {
        self.grants += 1;
        if self.down {
            return None;
        }
        let id: i64 = self.next_id;
        self.next_id += 1;
        self.leases.push(Granted { id, ttl, deadline: self.now + ttl as u64 * 1000 });
        Some(id)
    }

    /// The TTL of the lease after the renewal; zero for a lease that is gone.
    fn keep_alive(&mut self, id: i64) -> i64 {
        self.renewals += 1;
        let now: u64 = self.now;
        match self.leases.iter_mut().find(|lease| lease.id == id) {
            Some(lease) => {
                lease.deadline = now + lease.ttl as u64 * 1000;
                lease.ttl
            }
            None => 0,
        }
    }

    fn revoke(&mut self, id: i64) -> bool {
        let live = self.live(id);
        self.leases.retain(|lease| lease.id != id);
        if self.holder == Some(id) {
            self.holder = None;
        }
        live
    }

    fn lapse(&mut self) {
        let now: u64 = self.now;
        let gone: Vec<i64> =
            self.leases.iter().filter(|lease| lease.deadline <= now).map(|lease| lease.id).collect();
        for id in gone {
            self.revoke(id);
        }
    }

    /// `Some(true)` where the campaign is won, `Some(false)` where it fails
    /// because the lease is gone, `None` while it blocks.
    fn campaign(&mut self, id: i64) -> Option<bool> {
        if !self.live(id) {
            Some(false)
        } else if self.holder.is_none() {
            self.holder = Some(id);
            Some(true)
        } else if self.holder == Some(id) {
            Some(true)
        } else {
            None
        }
    }
}

fn millis(interval: RenewalInterval) -> u64 {
    interval.secs * 1000 + (interval.nanos / 1_000_000) as u64
}

/// A keep-alive task together with what its driver holds for it: the running
/// timer and the owner's end of the expiry signal.
struct KeepAlive {
    lease: Lease,
    wake_at: Option<u64>,
    expiry_signals: u32,
    failed: Option<LeaseError>,
}

/// Performs `first` and every action that follows at once, until the task
/// waits for its timer or is over.
fn perform(task: &mut KeepAlive, service: &mut Service, first: LeaseAction) {
    let mut action = first;
    loop {
        let event = match action {
            LeaseAction::Grant { ttl } => match service.grant(ttl) {
                Some(id) => LeaseEvent::Granted { id },
                None => LeaseEvent::GrantFailed,
            },
            LeaseAction::OpenStream { .. } => LeaseEvent::StreamOpened,
            LeaseAction::Sleep { interval } => {
                task.wake_at = Some(service.now + millis(interval));
                return;
            }
            LeaseAction::KeepAlive { id } => LeaseEvent::Renewed { ttl: service.keep_alive(id) },
            LeaseAction::Revoke { id } => {
                if service.revoke(id) {
                    LeaseEvent::Revoked
                } else {
                    LeaseEvent::RevokeFailed
                }
            }
            LeaseAction::SignalExpiry => {
                task.expiry_signals += 1;
                task.wake_at = None;
                return;
            }
            LeaseAction::Fail { error } => {
                task.failed = Some(error);
                task.wake_at = None;
                return;
            }
            LeaseAction::Finish | LeaseAction::Ignore => {
                task.wake_at = None;
                return;
            }
        };
        action = keep_alive_task(&mut task.lease, event);
    }
}

fn start_lease(service: &mut Service, ttl: i64) -> KeepAlive {
    let (lease, action) = acquire_lease(ttl).unwrap();
    let mut task = KeepAlive { lease, wake_at: None, expiry_signals: 0, failed: None };
    perform(&mut task, service, action);
    task
}

fn tick_lease(task: &mut KeepAlive, service: &mut Service) {
    if let Some(at) = task.wake_at {
        if at <= service.now {
            task.wake_at = None;
            let action = keep_alive_task(&mut task.lease, LeaseEvent::TimerFired);
            perform(task, service, action);
        }
    }
}

fn drop_lease(mut task: KeepAlive, service: &mut Service) -> KeepAlive {
    let action = keep_alive_task(&mut task.lease, LeaseEvent::CancelRequested);
    perform(&mut task, service, action);
    task
}

/// One leadership request together with what its driver holds for it.
struct Instance {
    leadership: Leadership,
    command: LeadershipCommand,
    retry_at: Option<u64>,
    task: Option<KeepAlive>,
    watch: LeadershipStatus,
    published: Vec<LeadershipStatus>,
}

fn apply(instance: &mut Instance, service: &mut Service, first: LeadershipStep) {
    let mut step = first;
    loop {
        if let Some(status) = step.publish {
            instance.watch = status;
            instance.published.push(status);
        }
        if let Some(id) = step.release {
            let task = instance.task.take().unwrap();
            assert_eq!(task.lease.id(), Some(id));
            drop_lease(task, service);
        }
        instance.command = step.command;
        match step.command {
            LeadershipCommand::AcquireLease { ttl } => {
                let task = start_lease(service, ttl);
                let event = match (task.lease.is_running(), task.lease.id(), task.failed) {
                    (true, Some(lease_id), _) => LeadershipEvent::LeaseAcquired { lease_id },
                    (_, _, Some(error)) => LeadershipEvent::LeaseFailed(error),
                    _ => unreachable!(),
                };
                instance.task = if task.lease.is_running() { Some(task) } else { None };
                step = handle_leadership(&mut instance.leadership, event);
            }
            LeadershipCommand::Backoff { millis } => {
                instance.retry_at = Some(service.now + millis);
                return;
            }
            _ => return,
        }
    }
}

fn request(service: &mut Service, name: &str) -> Instance {
    let (leadership, step) = request_leadership(name).unwrap();
    let watch = leadership.status();
    let mut instance = Instance {
        leadership,
        command: step.command,
        retry_at: None,
        task: None,
        watch,
        published: Vec::new(),
    };
    apply(&mut instance, service, step);
    instance
}

fn tick(instance: &mut Instance, service: &mut Service) {
    if let Some(task) = &mut instance.task {
        tick_lease(task, service);
    }
    let expired = match &instance.task {
        Some(task) => task.expiry_signals > 0,
        None => false,
    };
    let event = match instance.command {
        LeadershipCommand::Campaign { lease_id } => {
            if expired {
                LeadershipEvent::LeaseExpired
            } else {
                match service.campaign(lease_id) {
                    Some(true) => LeadershipEvent::CampaignWon,
                    Some(false) => LeadershipEvent::CampaignFailed(CampaignError::Failed),
                    None => return,
                }
            }
        }
        LeadershipCommand::AwaitExpiry { .. } => {
            if expired {
                LeadershipEvent::LeaseExpired
            } else {
                return;
            }
        }
        LeadershipCommand::Backoff { .. } => match instance.retry_at {
            Some(at) if at <= service.now => LeadershipEvent::BackoffElapsed,
            _ => return,
        },
        _ => return,
    };
    if event == LeadershipEvent::LeaseExpired {
        instance.task = None;
    }
    let step = handle_leadership(&mut instance.leadership, event);
    apply(instance, service, step);
}

fn release(mut instance: Instance, service: &mut Service) -> Instance {
    let step = handle_leadership(&mut instance.leadership, LeadershipEvent::CancelRequested);
    apply(&mut instance, service, step);
    instance
}

fn live_leaders(instances: &Vec<Instance>, service: &Service) -> usize {
    instances
        .iter()
        .filter(|instance| match instance.watch {
            LeadershipStatus::Leader { lease_id } => {
                instance.leadership.state().phase != LeadershipPhase::Stopped && service.live(lease_id)
            }
            _ => false,
        })
        .count()
}

/// Lets `span` milliseconds pass, ten at a time.
fn sleep(service: &mut Service, leases: &mut Vec<KeepAlive>, instances: &mut Vec<Instance>, span: u64) {
    let end: u64 = service.now + span;
    while service.now < end {
        service.now += 10;
        service.lapse();
        for task in leases.iter_mut() {
            tick_lease(task, service);
        }
        for instance in instances.iter_mut() {
            tick(instance, service);
        }
        assert!(live_leaders(instances, service) <= 1);
    }
}

#[test]
fn should_keep_alive_leases() {
    let mut service = Service::new();
    let mut none: Vec<Instance> = Vec::new();

    // when a lease is acquired
    let mut leases = vec![start_lease(&mut service, 1)];
    sleep(&mut service, &mut leases, &mut none, 3000);

    // then the lease is kept alive
    let listed = service.lease_ids();
    assert_eq!(1, listed.len());
    assert_eq!(leases[0].lease.id(), Some(listed[0]));
    assert_eq!(service.renewals, 6);
    assert_eq!(leases[0].expiry_signals, 0);
}

#[test]
fn dropped_lease_is_not_kept_alive() {
    let mut service = Service::new();
    let mut none: Vec<Instance> = Vec::new();

    // given a lease
    let mut leases = vec![start_lease(&mut service, 1)];
    sleep(&mut service, &mut leases, &mut none, 2000);
    assert_eq!(1, service.lease_ids().len());

    // when the lease is dropped
    let dropped = drop_lease(leases.pop().unwrap(), &mut service);

    // then the lease is not alive anymore
    sleep(&mut service, &mut leases, &mut none, 1000);
    assert_eq!(0, service.lease_ids().len());
    assert_eq!(dropped.lease.state().phase, LeasePhase::Cancelled);
    assert_eq!(dropped.lease.state().failure, None);
    assert_eq!(dropped.expiry_signals, 0);
}

#[test]
fn can_listen_lease_expiration() {
    let mut service = Service::new();
    let mut none: Vec<Instance> = Vec::new();

    // given a lease
    let mut leases = vec![start_lease(&mut service, 1)];
    sleep(&mut service, &mut leases, &mut none, 1000);
    assert_eq!(leases[0].expiry_signals, 0);

    // when the lease expires
    let id: i64 = leases[0].lease.id().unwrap();
    assert!(service.revoke(id));
    sleep(&mut service, &mut leases, &mut none, 1000);

    // the channel is notified
    assert_eq!(leases[0].expiry_signals, 1);
    assert_eq!(leases[0].lease.state().phase, LeasePhase::Expired);

    // and never again
    sleep(&mut service, &mut leases, &mut none, 5000);
    assert_eq!(leases[0].expiry_signals, 1);
}

#[test]
fn can_become_leader() {
    let mut service = Service::new();
    let mut leases: Vec<KeepAlive> = Vec::new();

    let mut instances = vec![request(&mut service, "srv")];
    sleep(&mut service, &mut leases, &mut instances, 1000);
    let lease1: i64 = if let LeadershipStatus::Leader { lease_id } = instances[0].watch {
        lease_id
    } else {
        panic!("instance1 should be the leader")
    };

    instances.push(request(&mut service, "srv"));
    sleep(&mut service, &mut leases, &mut instances, 1000);
    assert!(matches!(instances[1].watch, LeadershipStatus::Candidate));

    assert!(service.revoke(lease1));
    sleep(&mut service, &mut leases, &mut instances, 1000);
    assert!(matches!(instances[0].watch, LeadershipStatus::Follower));
    assert!(matches!(instances[1].watch, LeadershipStatus::Leader { .. }));
}

#[test]
fn drop_handle_give_up_leadership() {
    let mut service = Service::new();
    let mut leases: Vec<KeepAlive> = Vec::new();

    // given a leader instance
    let mut instances = vec![request(&mut service, "srv")];
    sleep(&mut service, &mut leases, &mut instances, 1000);
    assert!(instances[0].watch.is_leader());

    // ...and a follower
    instances.push(request(&mut service, "srv"));
    sleep(&mut service, &mut leases, &mut instances, 1000);
    assert!(!instances[1].watch.is_leader());

    // when the leader gives up its status
    let instance1 = release(instances.remove(0), &mut service);
    assert_eq!(instance1.leadership.state().phase, LeadershipPhase::Stopped);
    sleep(&mut service, &mut leases, &mut instances, 3000);

    // then the follower is promoted to leader
    assert!(matches!(instances[0].watch, LeadershipStatus::Leader { .. }));
    assert_eq!(instance1.published.len(), 1);
}

#[test]
fn lease_then_drop_then_two_candidates_then_swap() {
    let mut service = Service::new();
    let mut instances: Vec<Instance> = Vec::new();

    let mut leases = vec![start_lease(&mut service, 1)];
    let id: i64 = leases[0].lease.id().unwrap();
    sleep(&mut service, &mut leases, &mut instances, 3000);
    assert_eq!(service.lease_ids(), vec![id]);

    drop_lease(leases.pop().unwrap(), &mut service);
    sleep(&mut service, &mut leases, &mut instances, 1000);
    assert_eq!(service.lease_ids(), Vec::<i64>::new());

    instances.push(request(&mut service, "srv"));
    instances.push(request(&mut service, "srv"));
    sleep(&mut service, &mut leases, &mut instances, 1000);
    let leader: usize = if instances[0].watch.is_leader() { 0 } else { 1 };
    let other: usize = 1 - leader;
    assert!(instances[leader].watch.is_leader());
    assert_eq!(instances[other].watch, LeadershipStatus::Candidate);

    let held: i64 = match instances[leader].watch {
        LeadershipStatus::Leader { lease_id } => lease_id,
        _ => unreachable!(),
    };
    assert!(service.revoke(held));
    sleep(&mut service, &mut leases, &mut instances, 1000);
    assert!(instances[other].watch.is_leader());
    assert!(!instances[leader].watch.is_leader());
    assert_eq!(instances[leader].watch, LeadershipStatus::Follower);
}

#[test]
fn untouched_lease_outlives_twice_its_ttl() {
    let ttls: Vec<i64> = vec![1, 2, 3, 5, 30];
    for ttl in ttls {
        let mut service = Service::new();
        let mut none: Vec<Instance> = Vec::new();
        let mut leases = vec![start_lease(&mut service, ttl)];
        sleep(&mut service, &mut leases, &mut none, 2 * ttl as u64 * 1000 + 10);
        assert_eq!(service.lease_ids(), vec![leases[0].lease.id().unwrap()]);
        assert!(service.renewals >= 4);
        assert!(leases[0].lease.is_running());
        assert!(leases[0].lease.is_alive());
    }
}

#[test]
fn lease_without_renewal_lapses_at_the_service() {
    let mut service = Service::new();
    let id: i64 = service.grant(1).unwrap();
    let mut leases: Vec<KeepAlive> = Vec::new();
    let mut none: Vec<Instance> = Vec::new();
    sleep(&mut service, &mut leases, &mut none, 990);
    assert!(service.live(id));
    sleep(&mut service, &mut leases, &mut none, 10);
    assert!(!service.live(id));
}

#[test]
fn dropped_lease_is_gone_within_one_renewal_interval() {
    let mut service = Service::new();
    let mut none: Vec<Instance> = Vec::new();
    let mut leases = vec![start_lease(&mut service, 4)];
    sleep(&mut service, &mut leases, &mut none, 1500);
    drop_lease(leases.pop().unwrap(), &mut service);
    assert_eq!(0, service.lease_ids().len());
}

#[test]
fn at_most_one_live_leader_among_many() {
    let mut service = Service::new();
    let mut leases: Vec<KeepAlive> = Vec::new();
    let mut instances: Vec<Instance> = Vec::new();
    for _ in 0..5 {
        instances.push(request(&mut service, "srv"));
    }
    for round in 0..20u32 {
        sleep(&mut service, &mut leases, &mut instances, 1500);
        assert_eq!(live_leaders(&instances, &service), 1);
        let holder: i64 = service.holder.unwrap();
        if round % 3 == 2 {
            let at: usize = instances
                .iter()
                .position(|instance| instance.watch == LeadershipStatus::Leader { lease_id: holder })
                .unwrap();
            let gone = release(instances.remove(at), &mut service);
            assert_eq!(gone.leadership.state().phase, LeadershipPhase::Stopped);
            instances.push(request(&mut service, "srv"));
        } else {
            assert!(service.revoke(holder));
        }
    }
    for instance in instances.iter() {
        for (at, status) in instance.published.iter().enumerate() {
            assert_eq!(status.is_leader(), at % 2 == 0);
        }
    }
}

#[test]
fn unreachable_service_is_retried_without_spinning() {
    let mut service = Service::new();
    service.down = true;
    let mut leases: Vec<KeepAlive> = Vec::new();
    let mut instances = vec![request(&mut service, "srv")];
    assert_eq!(instances[0].command, LeadershipCommand::Backoff { millis: 100 });
    sleep(&mut service, &mut leases, &mut instances, 20_000);
    // attempts at 0, 100, 300, 700, 1500, 3100, 6300, 9500, 12700, 15900, 19100 ms
    assert_eq!(service.grants, 11);
    assert_eq!(instances[0].watch, LeadershipStatus::Candidate);
    assert_eq!(instances[0].published.len(), 0);

    service.down = false;
    sleep(&mut service, &mut leases, &mut instances, 3_200);
    assert!(instances[0].watch.is_leader());
    assert_eq!(instances[0].leadership.state().failures, 0);
}

#[test]
fn released_candidate_gives_its_lease_back() {
    let mut service = Service::new();
    let mut leases: Vec<KeepAlive> = Vec::new();
    let mut instances = vec![request(&mut service, "srv"), request(&mut service, "srv")];
    sleep(&mut service, &mut leases, &mut instances, 1000);
    assert_eq!(service.lease_ids().len(), 2);
    assert_eq!(instances[1].command, LeadershipCommand::Campaign { lease_id: 1001 });

    let waiting = release(instances.remove(1), &mut service);
    assert_eq!(waiting.published.len(), 0);
    assert_eq!(service.lease_ids(), vec![1000]);
    sleep(&mut service, &mut leases, &mut instances, 3000);
    assert_eq!(service.lease_ids(), vec![1000]);
    assert_eq!(instances[0].watch, LeadershipStatus::Leader { lease_id: 1000 });
}

#[test]
fn former_leader_shows_leader_until_its_next_renewal() {
    let mut service = Service::new();
    let mut leases: Vec<KeepAlive> = Vec::new();
    let mut instances = vec![request(&mut service, "srv"), request(&mut service, "srv")];
    sleep(&mut service, &mut leases, &mut instances, 1010);
    assert_eq!(instances[0].watch, LeadershipStatus::Leader { lease_id: 1000 });
    assert_eq!(instances[1].watch, LeadershipStatus::Candidate);

    // the leader's lease is revoked just after a renewal
    assert!(service.revoke(1000));
    sleep(&mut service, &mut leases, &mut instances, 10);

    // the other instance has won, and the former leader has not noticed yet
    assert_eq!(instances[1].watch, LeadershipStatus::Leader { lease_id: 1001 });
    assert_eq!(instances[0].watch, LeadershipStatus::Leader { lease_id: 1000 });
    assert!(!service.live(1000));
    assert_eq!(live_leaders(&instances, &service), 1);

    // it notices on its next renewal, half a TTL after the last at the latest
    sleep(&mut service, &mut leases, &mut instances, 480);
    assert_eq!(instances[0].watch, LeadershipStatus::Follower);
    assert_eq!(instances[1].watch, LeadershipStatus::Leader { lease_id: 1001 });
}
