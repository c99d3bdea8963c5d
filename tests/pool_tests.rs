use cp::queue::{Dispatch, JobQueue};

fn drain(queue: &mut JobQueue<usize>, workers: usize, ran: &mut Vec<usize>) {
    let mut stopped = vec![false; workers];
    let mut worker = 0;
    while stopped.iter().any(|s| !s) {
        if !stopped[worker] {
            match queue.next() {
                Dispatch::Run(job) => ran.push(job),
                Dispatch::Wait => panic!("a closed queue never asks to wait"),
                Dispatch::Stop => stopped[worker] = true,
            }
        }
        worker = (worker + 1) % workers;
    }
}

#[test]
fn every_submitted_job_runs_exactly_once() {
    for workers in 1..5usize {
        for jobs in 0..20usize {
            let mut queue = JobQueue::new();
            for j in 0..jobs {
                assert!(queue.submit(j).is_ok());
            }
            queue.close();
            let mut ran = Vec::new();
            drain(&mut queue, workers, &mut ran);
            assert_eq!(ran, (0..jobs).collect::<Vec<_>>());
        }
    }
}

#[test]
fn open_empty_queue_asks_to_wait() {
    let mut queue: JobQueue<u8> = JobQueue::new();
    assert!(matches!(queue.next(), Dispatch::Wait));
    assert!(!queue.is_closed());
    queue.submit(9).unwrap();
    assert_eq!(queue.len(), 1);
    assert!(matches!(queue.next(), Dispatch::Run(9)));
    assert!(matches!(queue.next(), Dispatch::Wait));
}

#[test]
fn closed_queue_refuses_and_keeps_accepted_jobs() {
    let mut queue = JobQueue::new();
    queue.submit(1u32).unwrap();
    queue.submit(2u32).unwrap();
    queue.close();
    assert!(queue.is_closed());
    assert_eq!(queue.submit(3), Err(3));
    assert_eq!(queue.len(), 2);
    assert!(matches!(queue.next(), Dispatch::Run(1)));
    assert!(matches!(queue.next(), Dispatch::Run(2)));
    assert!(matches!(queue.next(), Dispatch::Stop));
    assert!(matches!(queue.next(), Dispatch::Stop));
}

#[test]
fn shutdown_counter_equals_submitted_count() {
    let mut queue = JobQueue::new();
    let mut counter = 0usize;
    for _ in 0..7 {
        queue.submit(1usize).unwrap();
    }
    queue.close();
    loop {
        match queue.next() {
            Dispatch::Run(step) => counter += step,
            Dispatch::Wait => unreachable!(),
            Dispatch::Stop => break,
        }
    }
    assert_eq!(counter, 7);
}
