use std::cell::{Cell, RefCell};
use v2ray_maid::pool::{run, worker_count, Action, Event, Phase, ProbePool};
use v2ray_maid::vlink::VLink;

fn candidate(label: &str) -> VLink {
    let mut link = VLink::default();
    link.remarks = label.to_string();
    link
}

fn candidates(n: usize) -> Vec<VLink> {
    (0..n).map(|i| candidate(&format!("server-{}", i))).collect()
}

/// What the mock world answers for the candidate with a given label.
struct Script {
    start_ok: bool,
    latency: i32,
}

/// Drives a pool to its end, taking the workers in round-robin order.
/// Returns the actions that were issued, with the worker they were issued to.
fn drive(pool: &mut ProbePool, script: &dyn Fn(&str) -> Script) -> Vec<(usize, Action)> {
    let workers = pool.worker_count();
    let mut events: Vec<Option<Event>> = vec![Some(Event::Wake); workers];
    let mut log = Vec::new();
    let mut next_port: u16 = 20000;
    let mut turns = 0;
    while !pool.is_finished() {
        turns += 1;
        assert!(turns < 100_000, "the pool did not come to an end");
        for w in 0..workers {
            let event = match events[w] {
                Some(e) => e,
                None => continue,
            };
            let action = pool.step(w, event);
            log.push((w, action));
            let label = pool.candidate(w).map(|c| c.remarks.clone()).unwrap_or_default();
            events[w] = match action {
                Action::AcquirePort => {
                    next_port += 1;
                    Some(Event::PortLeased(next_port))
                }
                Action::Start { .. } => Some(if script(&label).start_ok {
                    Event::StartSucceeded
                } else {
                    Event::StartFailed
                }),
                Action::Probe { .. } => Some(Event::Probed(script(&label).latency)),
                Action::Stop => Some(Event::Stopped),
                Action::Exit => None,
            };
        }
        if workers == 0 {
            break;
        }
    }
    log
}

#[test]
fn clamp_limits_workers_to_candidates() {
    assert_eq!(worker_count(Some(8), 3), 3);
    let pool = ProbePool::new(candidates(3), Some(8), 5);
    assert_eq!(pool.worker_count(), 3);
    assert_eq!(pool.stats().workers, 3);
    assert_eq!(pool.stats().candidates, 3);
}

#[test]
fn clamp_keeps_smaller_request() {
    assert_eq!(worker_count(Some(2), 5), 2);
    assert_eq!(worker_count(Some(5), 5), 5);
    assert_eq!(ProbePool::new(candidates(5), Some(2), 5).worker_count(), 2);
}

#[test]
fn clamp_without_request_is_one_worker() {
    assert_eq!(worker_count(None, 7), 1);
    assert_eq!(worker_count(None, 0), 1);
    assert_eq!(ProbePool::new(candidates(7), None, 5).worker_count(), 1);
}

#[test]
fn clamp_of_zero_request_or_no_candidates_is_zero() {
    assert_eq!(worker_count(Some(0), 4), 0);
    assert_eq!(worker_count(Some(3), 0), 0);
    let pool = ProbePool::new(Vec::new(), Some(3), 5);
    assert_eq!(pool.worker_count(), 0);
    assert!(pool.is_finished());
    assert!(pool.into_results().is_empty());
}

#[test]
fn single_worker_walks_through_one_candidate() {
    let mut pool = ProbePool::new(candidates(1), Some(1), 5);
    assert_eq!(pool.phase(0), Some(Phase::Idle));
    assert_eq!(pool.step(0, Event::Wake), Action::AcquirePort);
    assert_eq!(pool.phase(0), Some(Phase::AwaitingPort));
    assert_eq!(pool.queued(), 0);
    assert_eq!(pool.candidate(0).unwrap().remarks, "server-0");
    assert_eq!(pool.step(0, Event::PortLeased(4000)), Action::Start { port: 4000 });
    assert_eq!(pool.step(0, Event::StartSucceeded), Action::Probe { port: 4000, samples: 5 });
    assert_eq!(pool.step(0, Event::Probed(42)), Action::Stop);
    assert_eq!(pool.phase(0), Some(Phase::Stopping));
    assert!(pool.results().is_empty());
    assert_eq!(pool.step(0, Event::Stopped), Action::Exit);
    assert_eq!(pool.phase(0), Some(Phase::Done));
    assert!(pool.is_finished());
    let results = pool.into_results();
    assert_eq!(results.len(), 1);
    assert_eq!(results[0].remarks, "server-0");
    assert_eq!(results[0].latency, 42);
}

#[test]
fn candidates_are_taken_from_the_end_of_the_queue() {
    let mut pool = ProbePool::new(candidates(3), Some(1), 5);
    pool.step(0, Event::Wake);
    assert_eq!(pool.candidate(0).unwrap().remarks, "server-2");
    assert_eq!(pool.queued(), 2);
}

#[test]
fn run_returns_a_subset_of_the_input_with_measured_latencies() {
    let input = candidates(10);
    let mut pool = ProbePool::new(input.clone(), Some(3), 5);
    let script = |label: &str| -> Script {
        let n: i32 = label.trim_start_matches("server-").parse().unwrap();
        Script { start_ok: n % 4 != 3, latency: if n % 2 == 0 { 10 * n } else { -1 } }
    };
    drive(&mut pool, &script);
    assert!(pool.is_finished());
    assert_eq!(pool.queued(), 0);
    let results = pool.into_results();
    let mut labels: Vec<String> = results.iter().map(|r| r.remarks.clone()).collect();
    labels.sort();
    assert_eq!(labels, vec!["server-0", "server-2", "server-4", "server-6", "server-8"]);
    for r in &results {
        assert!(r.latency >= 0);
        let source = input.iter().find(|c| c.remarks == r.remarks).unwrap();
        assert_eq!(r.address, source.address);
        assert_eq!(r.port, source.port);
        assert_eq!(r.id, source.id);
        let n: i32 = r.remarks.trim_start_matches("server-").parse().unwrap();
        assert_eq!(r.latency, 10 * n);
    }
}

#[test]
fn run_ends_for_every_number_of_workers() {
    for workers in 1..=6 {
        let mut pool = ProbePool::new(candidates(5), Some(workers), 3);
        drive(&mut pool, &|_| Script { start_ok: true, latency: 7 });
        assert!(pool.is_finished());
        assert_eq!(pool.into_results().len(), 5);
    }
}

#[test]
fn all_probes_failing_gives_no_results() {
    let mut pool = ProbePool::new(candidates(6), Some(4), 5);
    drive(&mut pool, &|_| Script { start_ok: true, latency: -1 });
    assert!(pool.is_finished());
    let stats = pool.stats();
    assert_eq!(stats.probe_successes, 0);
    assert_eq!(stats.probe_failures, 6);
    assert!(pool.into_results().is_empty());
}

#[test]
fn all_starts_failing_gives_no_results() {
    let mut pool = ProbePool::new(candidates(4), Some(2), 5);
    let log = drive(&mut pool, &|_| Script { start_ok: false, latency: 5 });
    assert!(log.iter().all(|(_, a)| !matches!(a, Action::Probe { .. } | Action::Stop)));
    let stats = pool.stats();
    assert_eq!(stats.start_failures, 4);
    assert_eq!(stats.started, 0);
    assert_eq!(stats.stopped, 0);
    assert!(pool.into_results().is_empty());
}

#[test]
fn stop_is_issued_once_per_successful_start() {
    let mut pool = ProbePool::new(candidates(9), Some(3), 5);
    let script = |label: &str| -> Script {
        let n: i32 = label.trim_start_matches("server-").parse().unwrap();
        Script { start_ok: n % 3 != 0, latency: if n % 2 == 0 { 15 } else { -1 } }
    };
    let log = drive(&mut pool, &script);
    let probes = log.iter().filter(|(_, a)| matches!(a, Action::Probe { .. })).count();
    let stops = log.iter().filter(|(_, a)| matches!(a, Action::Stop)).count();
    assert_eq!(probes, 6);
    assert_eq!(stops, 6);
    let stats = pool.stats();
    assert_eq!(stats.started, 6);
    assert_eq!(stats.stopped, 6);
    assert_eq!(stats.start_failures, 3);
    // Per worker, every probe is followed by a stop before anything else.
    for w in 0..3 {
        let mine: Vec<&Action> = log.iter().filter(|(v, _)| *v == w).map(|(_, a)| a).collect();
        for (i, a) in mine.iter().enumerate() {
            if matches!(a, Action::Probe { .. }) {
                assert_eq!(*mine[i + 1], Action::Stop);
            }
        }
    }
}

#[test]
fn stop_follows_a_failed_probe() {
    let mut pool = ProbePool::new(candidates(1), Some(1), 5);
    pool.step(0, Event::Wake);
    pool.step(0, Event::PortLeased(4100));
    pool.step(0, Event::StartSucceeded);
    assert_eq!(pool.step(0, Event::Probed(-1)), Action::Stop);
    assert_eq!(pool.stats().started, 1);
    assert_eq!(pool.stats().stopped, 0);
    assert_eq!(pool.step(0, Event::Stopped), Action::Exit);
    assert_eq!(pool.stats().stopped, 1);
    assert!(pool.into_results().is_empty());
}

#[test]
fn workers_never_share_a_leased_port() {
    let mut pool = ProbePool::new(candidates(12), Some(4), 5);
    let workers = pool.worker_count();
    // A mock allocator that hands out the lowest port no worker holds.
    let mut held: Vec<Option<u16>> = vec![None; workers];
    let mut events: Vec<Option<Event>> = vec![Some(Event::Wake); workers];
    while !pool.is_finished() {
        for w in 0..workers {
            let Some(event) = events[w] else { continue };
            let action = pool.step(w, event);
            events[w] = match action {
                Action::AcquirePort => {
                    held[w] = None;
                    let mut port = 30000;
                    while held.contains(&Some(port)) {
                        port += 1;
                    }
                    held[w] = Some(port);
                    Some(Event::PortLeased(port))
                }
                Action::Start { port } | Action::Probe { port, .. } => {
                    assert_eq!(held[w], Some(port));
                    for v in 0..workers {
                        if v != w {
                            assert_ne!(held[v], Some(port));
                        }
                    }
                    Some(if matches!(action, Action::Start { .. }) {
                        Event::StartSucceeded
                    } else {
                        Event::Probed(9)
                    })
                }
                Action::Stop => Some(Event::Stopped),
                Action::Exit => {
                    held[w] = None;
                    None
                }
            };
        }
    }
    assert_eq!(pool.into_results().len(), 12);
}

#[test]
fn failed_start_drops_the_candidate_and_fetches_the_next() {
    let mut pool = ProbePool::new(candidates(2), Some(1), 5);
    pool.step(0, Event::Wake);
    pool.step(0, Event::PortLeased(4000));
    assert_eq!(pool.step(0, Event::StartFailed), Action::AcquirePort);
    assert_eq!(pool.candidate(0).unwrap().remarks, "server-0");
    assert_eq!(pool.stats().start_failures, 1);
    pool.step(0, Event::PortLeased(4001));
    assert_eq!(pool.step(0, Event::StartFailed), Action::Exit);
    assert!(pool.is_finished());
    assert!(pool.into_results().is_empty());
}

#[test]
fn unexpected_reports_change_nothing() {
    let mut pool = ProbePool::new(candidates(1), Some(1), 5);
    pool.step(0, Event::Wake);
    assert_eq!(pool.step(0, Event::Stopped), Action::AcquirePort);
    assert_eq!(pool.step(0, Event::Probed(3)), Action::AcquirePort);
    assert_eq!(pool.phase(0), Some(Phase::AwaitingPort));
    pool.step(0, Event::PortLeased(4000));
    assert_eq!(pool.step(0, Event::PortLeased(4001)), Action::Start { port: 4000 });
    pool.step(0, Event::StartSucceeded);
    assert_eq!(pool.step(0, Event::StartFailed), Action::Probe { port: 4000, samples: 5 });
    assert_eq!(pool.step(0, Event::Stopped), Action::Probe { port: 4000, samples: 5 });
    pool.step(0, Event::Probed(8));
    assert_eq!(pool.step(0, Event::Probed(1)), Action::Stop);
    assert_eq!(pool.stats().stopped, 0);
    pool.step(0, Event::Stopped);
    assert_eq!(pool.step(0, Event::Wake), Action::Exit);
    let results = pool.into_results();
    assert_eq!(results.len(), 1);
    assert_eq!(results[0].latency, 8);
}

#[test]
fn a_worker_that_does_not_exist_is_told_to_exit() {
    let mut pool = ProbePool::new(candidates(2), Some(1), 5);
    assert_eq!(pool.step(5, Event::Wake), Action::Exit);
    assert_eq!(pool.queued(), 2);
    assert_eq!(pool.phase(5), None);
    assert!(pool.candidate(5).is_none());
}

#[test]
fn zero_latency_is_a_measured_latency() {
    let mut pool = ProbePool::new(candidates(1), Some(1), 5);
    drive(&mut pool, &|_| Script { start_ok: true, latency: 0 });
    let results = pool.into_results();
    assert_eq!(results.len(), 1);
    assert_eq!(results[0].latency, 0);
}

#[test]
fn any_negative_probe_counts_as_unreachable() {
    let mut pool = ProbePool::new(candidates(1), Some(1), 5);
    drive(&mut pool, &|_| Script { start_ok: true, latency: -77 });
    assert_eq!(pool.stats().probe_failures, 1);
    assert!(pool.into_results().is_empty());
}

fn number(link: &VLink) -> i32 {
    link.remarks.trim_start_matches("server-").parse().unwrap()
}

#[test]
fn blocking_run_returns_the_reachable_candidates() {
    let input = candidates(7);
    let next_port = Cell::new(40000u16);
    let results = run(
        input.clone(),
        Some(3),
        5,
        || {
            next_port.set(next_port.get() + 1);
            next_port.get()
        },
        |c, _| number(c) != 5,
        |c, _, samples| if number(c) % 2 == 1 { number(c) * samples } else { -1 },
        |_, _| {},
    );
    let mut got: Vec<(String, i32)> =
        results.iter().map(|r| (r.remarks.clone(), r.latency)).collect();
    got.sort();
    assert_eq!(got, vec![("server-1".to_string(), 5), ("server-3".to_string(), 15)]);
    for r in &results {
        let source = input.iter().find(|c| c.remarks == r.remarks).unwrap();
        assert_eq!(r.address, source.address);
        assert_eq!(r.id, source.id);
    }
}

#[test]
fn blocking_run_returns_nothing_when_every_probe_fails() {
    let results = run(candidates(5), Some(2), 5, || 1, |_, _| true, |_, _, _| -1, |_, _| {});
    assert!(results.is_empty());
}

#[test]
fn blocking_run_of_nothing_is_nothing() {
    let calls = Cell::new(0);
    let results = run(
        Vec::new(),
        Some(4),
        5,
        || {
            calls.set(calls.get() + 1);
            1
        },
        |_, _| true,
        |_, _, _| 1,
        |_, _| {},
    );
    assert!(results.is_empty());
    assert_eq!(calls.get(), 0);
}

#[test]
fn blocking_run_stops_every_program_it_started() {
    let running: RefCell<Vec<(String, u16)>> = RefCell::new(Vec::new());
    let starts = Cell::new(0);
    let stops = Cell::new(0);
    let most = Cell::new(0);
    let next_port = Cell::new(41000u16);
    let results = run(
        candidates(10),
        Some(4),
        3,
        || {
            next_port.set(next_port.get() + 1);
            next_port.get()
        },
        |c, port| {
            if number(c) % 4 == 0 {
                return false;
            }
            let mut running = running.borrow_mut();
            assert!(running.iter().all(|(_, p)| *p != port), "port leased twice");
            running.push((c.remarks.clone(), port));
            starts.set(starts.get() + 1);
            most.set(most.get().max(running.len()));
            true
        },
        |c, port, _| {
            assert!(running.borrow().contains(&(c.remarks.clone(), port)));
            if number(c) % 3 == 0 {
                -1
            } else {
                20
            }
        },
        |c, port| {
            let mut running = running.borrow_mut();
            let at = running.iter().position(|r| *r == (c.remarks.clone(), port));
            running.remove(at.expect("stopped a program that is not running"));
            stops.set(stops.get() + 1);
        },
    );
    assert!(running.borrow().is_empty());
    assert_eq!(starts.get(), 7);
    assert_eq!(stops.get(), 7);
    // Several programs are up at a time, never more than there are workers.
    assert!(most.get() > 1 && most.get() <= 4);
    let mut labels: Vec<String> = results.iter().map(|r| r.remarks.clone()).collect();
    labels.sort();
    assert_eq!(labels, vec!["server-1", "server-2", "server-5", "server-7"]);
}

#[test]
fn blocking_run_uses_as_many_workers_as_the_clamp_allows() {
    let up = Cell::new(0usize);
    let most = Cell::new(0usize);
    run(
        candidates(3),
        Some(8),
        5,
        || 1,
        |_, _| {
            up.set(up.get() + 1);
            most.set(most.get().max(up.get()));
            true
        },
        |_, _, _| 1,
        |_, _| up.set(up.get() - 1),
    );
    assert_eq!(most.get(), 3);
}

#[test]
fn port_is_known_while_a_lease_is_held() {
    let mut pool = ProbePool::new(candidates(1), Some(1), 5);
    assert_eq!(pool.port(0), None);
    pool.step(0, Event::Wake);
    assert_eq!(pool.port(0), None);
    pool.step(0, Event::PortLeased(4242));
    assert_eq!(pool.port(0), Some(4242));
    pool.step(0, Event::StartSucceeded);
    pool.step(0, Event::Probed(1));
    assert_eq!(pool.port(0), Some(4242));
    pool.step(0, Event::Stopped);
    assert_eq!(pool.port(0), None);
    assert_eq!(pool.port(3), None);
}

#[test]
fn blocking_run_returns_every_candidate_when_all_succeed() {
    for workers in [1usize, 2, 3, 7, 20] {
        let input = candidates(7);
        let results =
            run(input.clone(), Some(workers), 4, || 5000, |_, _| true, |c, _, _| number(c), |_, _| {});
        assert_eq!(results.len(), 7);
        let mut got: Vec<(String, i32)> =
            results.iter().map(|r| (r.remarks.clone(), r.latency)).collect();
        got.sort();
        let expected: Vec<(String, i32)> =
            (0..7).map(|i| (format!("server-{}", i), i)).collect();
        assert_eq!(got, expected);
    }
}

#[test]
fn blocking_run_returns_exactly_those_that_started_and_answered() {
    // Candidate n starts unless n is a multiple of 3, and answers with
    // latency 100 + n unless n is a multiple of 4.
    let input = candidates(13);
    let started = RefCell::new(Vec::new());
    let probed = RefCell::new(Vec::new());
    let results = run(
        input.clone(),
        Some(5),
        2,
        || 5001,
        |c, _| {
            started.borrow_mut().push(number(c));
            number(c) % 3 != 0
        },
        |c, port, samples| {
            assert_eq!((port, samples), (5001, 2));
            probed.borrow_mut().push(number(c));
            if number(c) % 4 != 0 {
                100 + number(c)
            } else {
                -1
            }
        },
        |_, _| {},
    );
    let mut got: Vec<(i32, i32)> = results.iter().map(|r| (number(r), r.latency)).collect();
    got.sort();
    let expected: Vec<(i32, i32)> =
        (0..13).filter(|n| n % 3 != 0 && n % 4 != 0).map(|n| (n, 100 + n)).collect();
    assert_eq!(got, expected);
    // Every candidate is started once, and those that came up are probed once.
    let mut started = started.into_inner();
    started.sort();
    assert_eq!(started, (0..13).collect::<Vec<i32>>());
    let mut probed = probed.into_inner();
    probed.sort();
    assert_eq!(probed, (0..13).filter(|n| n % 3 != 0).collect::<Vec<i32>>());
}

#[test]
fn blocking_run_without_workers_returns_nothing() {
    let results = run(candidates(3), Some(0), 5, || 1, |_, _| true, |_, _, _| 1, |_, _| {});
    assert!(results.is_empty());
}
