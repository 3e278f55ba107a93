//! Schedulers and the ring that they walk on.

use rxh::config::{Algorithm, Backend, SocketAddress};
use rxh::sched::{make, Scheduler, WeightedRoundRobin};
use rxh::sync::ring::Ring;
/// The IPv4 socket address that `text` stands for.
fn address(text: &str) -> SocketAddress {
    let (ip, port) = text.split_once(':').unwrap();
    let mut bits: u32 = 0;
    for octet in ip.split('.') {
        bits = bits * 256 + octet.parse::<u32>().unwrap();
    }
    SocketAddress::V4 {
        ip: bits,
        port: port.parse().unwrap(),
    }
}

/// An IPv4 socket address in writing.
fn text(address: SocketAddress) -> String {
    match address {
        SocketAddress::V4 { ip, port } => format!(
            "{}.{}.{}.{}:{}",
            ip >> 24,
            (ip >> 16) & 255,
            (ip >> 8) & 255,
            ip & 255,
            port
        ),
        SocketAddress::V6 { .. } => unreachable!(),
    }
}

fn backends(weights: &[(&str, usize)]) -> Vec<Backend> {
    weights
        .iter()
        .map(|(addr, weight)| Backend {
            address: address(addr),
            weight: *weight,
        })
        .collect()
}

#[test]
fn weighted_round_robin() {
    let backends = vec![
        ("127.0.0.1:8080", 1),
        ("127.0.0.1:8081", 3),
        ("127.0.0.1:8082", 2),
    ];

    let expected = vec![
        "127.0.0.1:8080",
        "127.0.0.1:8081",
        "127.0.0.1:8081",
        "127.0.0.1:8081",
        "127.0.0.1:8082",
        "127.0.0.1:8082",
    ];

    let wrr = WeightedRoundRobin::new(
        &backends
            .iter()
            .map(|(addr, weight)| Backend {
                address: address(addr),
                weight: *weight,
            })
            .collect(),
    );

    for server in expected {
        assert_eq!(server, text(wrr.next_server()));
    }
}

#[test]
fn load_balancing() {
    let weights = vec![1, 3, 2];
    let servers = backends(&[
        ("127.0.0.1:8080", 1),
        ("127.0.0.1:8081", 3),
        ("127.0.0.1:8082", 2),
    ]);
    let scheduler = make(Algorithm::Wrr, &servers);
    let mut request_counters = vec![0usize; 3];

    let cycles = 10;

    for cycle in 1..=cycles {
        for _ in 0..weights.iter().sum() {
            let to = scheduler.next_server();
            let index = servers.iter().position(|b| b.address == to).unwrap();
            request_counters[index] += 1;
        }

        for (num, weight) in request_counters.iter().zip(&weights) {
            assert_eq!(*num, weight * cycle);
        }
    }

    assert_eq!(request_counters, vec![10, 30, 20]);
}

#[test]
fn any_window_of_total_weight_respects_weights() {
    let servers = backends(&[
        ("127.0.0.1:8080", 1),
        ("127.0.0.1:8081", 3),
        ("127.0.0.1:8082", 2),
    ]);
    for skipped in 0..13 {
        let wrr = WeightedRoundRobin::new(&servers);
        for _ in 0..skipped {
            wrr.next_server();
        }
        let mut counters = vec![0usize; 3];
        for _ in 0..6 {
            let to = wrr.next_server();
            let index = servers.iter().position(|b| b.address == to).unwrap();
            counters[index] += 1;
        }
        assert_eq!(counters, vec![1, 3, 2]);
    }
}

#[test]
fn backends_on_one_address_add_their_weights() {
    let servers = backends(&[
        ("127.0.0.1:8080", 2),
        ("127.0.0.1:8081", 1),
        ("127.0.0.1:8080", 1),
    ]);
    let wrr = WeightedRoundRobin::new(&servers);
    let sent: Vec<String> = (0..4).map(|_| text(wrr.next_server())).collect();
    assert_eq!(
        sent,
        vec![
            "127.0.0.1:8080",
            "127.0.0.1:8080",
            "127.0.0.1:8081",
            "127.0.0.1:8080"
        ]
    );
}

#[test]
fn backend_without_weight_gets_no_request() {
    let servers = backends(&[("127.0.0.1:8080", 0), ("10.0.0.7:8081", 2)]);
    let wrr = WeightedRoundRobin::new(&servers);
    for _ in 0..5 {
        assert_eq!(text(wrr.next_server()), "10.0.0.7:8081");
    }
}

#[test]
fn make_builds_the_scheduler_of_the_algorithm() {
    let servers = backends(&[("127.0.0.1:8080", 1), ("127.0.0.1:8081", 1)]);
    let scheduler = make(Algorithm::Wrr, &servers);
    assert!(matches!(scheduler, Scheduler::Wrr(_)));
    assert_eq!(scheduler.algorithm(), Algorithm::Wrr);
    assert_eq!(text(scheduler.next_server()), "127.0.0.1:8080");
    assert_eq!(text(scheduler.next_server()), "127.0.0.1:8081");
    assert_eq!(text(scheduler.next_server()), "127.0.0.1:8080");
}

#[test]
fn ring_starts_again_after_the_last_value() {
    let ring = Ring::new(vec![10, 20, 30]);
    let handed: Vec<i32> = (0..7).map(|_| ring.next_as_owned()).collect();
    assert_eq!(handed, vec![10, 20, 30, 10, 20, 30, 10]);
}

#[test]
fn ring_of_one_value_always_answers_with_it() {
    let ring = Ring::new(vec![String::from("only")]);
    for _ in 0..3 {
        assert_eq!(ring.next_index(), 0);
        assert_eq!(ring.next_as_ref(), "only");
        assert_eq!(ring.next_as_cloned(), "only");
    }
}

#[test]
fn ring_getters_share_one_counter() {
    let ring = Ring::new(vec!['a', 'b', 'c', 'd']);
    assert_eq!(*ring.next_as_ref(), 'a');
    assert_eq!(ring.next_as_owned(), 'b');
    assert_eq!(ring.next_as_cloned(), 'c');
    assert_eq!(ring.next_index(), 3);
    assert_eq!(ring.next_index(), 0);
}

#[test]
fn ring_index_of_ticket() {
    let ring = Ring::new(vec![1, 2, 3]);
    assert_eq!(ring.index_of(0), 0);
    assert_eq!(ring.index_of(4), 1);
    assert_eq!(ring.index_of(8), 2);
    assert_eq!(ring.index_of(usize::MAX), usize::MAX % 3);
}

#[test]
fn ring_is_shared_between_tasks() {
    let ring = std::sync::Arc::new(Ring::new(vec![0usize, 1, 2, 3, 4]));
    let runtime = tokio::runtime::Builder::new_multi_thread()
        .worker_threads(4)
        .build()
        .unwrap();
    let counts = runtime.block_on(async {
        let mut tasks = Vec::new();
        for _ in 0..4 {
            let ring = ring.clone();
            tasks.push(tokio::spawn(async move {
                let mut counts = vec![0usize; 5];
                for _ in 0..250 {
                    counts[ring.next_as_owned()] += 1;
                }
                counts
            }));
        }
        let mut total = vec![0usize; 5];
        for task in tasks {
            for (sum, count) in total.iter_mut().zip(task.await.unwrap()) {
                *sum += count;
            }
        }
        total
    });
    assert_eq!(counts, vec![200; 5]);
}
