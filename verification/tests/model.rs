use julios::fs::iso::IsoFS;
use julios::fs::path::split_path;
use julios::fs::FSt;
use julios::fs::VirtualFS;
use julios::proc::thread::ThreadId;
use julios::task::keyboard::ScancodeOutcome;
use julios::task::keyboard::ScancodeStream;
use julios::task::yield_executor::YieldExecutor;
use julios::task::TaskId;
use std::collections::BTreeSet;
use std::collections::HashMap;
use std::collections::VecDeque;

struct Random(u64);

impl Random {
    fn next(&mut self, bound: u64) -> u64 {
        self.0 = self.0.wrapping_mul(6364136223846793005).wrapping_add(1442695040888963407);
        (self.0 >> 33) % bound
    }

    fn path(&mut self) -> String {
        let mut path = String::new();
        for _ in 0..self.next(5) {
            for _ in 0..1 + self.next(2) {
                path.push('/');
            }
            path.push_str(["a", "b", "mnt", "iso", "é"][self.next(5) as usize]);
        }
        for _ in 0..self.next(2) {
            path.push('/');
        }
        path
    }
}

fn parts(path: &str) -> Vec<String> {
    path.split('/').filter(|p| !p.is_empty()).map(String::from).collect()
}

#[test]
fn split_path_agrees_with_split_and_filter() {
    let mut random = Random(1);
    for _ in 0..500 {
        let path = random.path();
        assert_eq!(split_path(&path), parts(&path), "{:?}", path);
    }
}

#[test]
fn the_mount_table_agrees_with_a_map_of_paths() {
    let mut random = Random(7);
    for round in 0..50 {
        let mut vfs = VirtualFS::empty();
        let mut model: HashMap<Vec<String>, usize> = HashMap::new();
        for index in 0..random.next(6) as usize {
            let path = random.path();
            vfs.mount(&path, FSt::Iso(IsoFS {}));
            model.insert(parts(&path), index);
            assert!(vfs.filesystem(index).is_some());
            assert!(vfs.filesystem(index + 1).is_none());
        }
        for _ in 0..40 {
            let path = random.path();
            let all = parts(&path);
            let expected = (0..=all.len()).rev().find_map(|cut| {
                model.get(&all[..cut].to_vec()).map(|index| {
                    let rest: String = all[cut..].iter().map(|part| format!("/{}", part)).collect();
                    (*index, rest)
                })
            });
            assert_eq!(vfs.resolve(&path), expected, "round {} path {:?}", round, path);
        }
    }
}

#[test]
fn the_ready_queue_agrees_with_a_queue_and_a_set() {
    let mut random = Random(3);
    let mut executor = YieldExecutor::new(ThreadId(1));
    let mut queue: VecDeque<u64> = VecDeque::new();
    let mut tasks: BTreeSet<u64> = BTreeSet::new();
    for _ in 0..5000 {
        let id = random.next(20);
        match random.next(4) {
            0 => {
                let spawned = executor.try_spawn(TaskId(id)).is_ok();
                assert_eq!(spawned, !tasks.contains(&id) && queue.len() < 100);
                if spawned {
                    tasks.insert(id);
                    queue.push_back(id);
                }
            }
            1 => {
                let woken = executor.try_wake(TaskId(id));
                assert_eq!(woken, queue.len() < 100);
                if woken {
                    queue.push_back(id);
                }
            }
            2 => {
                let mut expected = None;
                while let Some(front) = queue.pop_front() {
                    if tasks.contains(&front) {
                        expected = Some(TaskId(front));
                        break;
                    }
                }
                assert_eq!(executor.next_ready(), expected);
            }
            _ => {
                let ready = random.next(2) == 0;
                executor.finish_poll(TaskId(id), ready);
                if ready {
                    tasks.remove(&id);
                }
            }
        }
        assert_eq!(executor.done(), tasks.is_empty());
        assert_eq!(executor.should_sleep(), queue.is_empty() && !tasks.is_empty());
    }
}

#[test]
fn the_scancode_queue_agrees_with_a_bounded_queue() {
    let mut random = Random(11);
    let mut stream = ScancodeStream::new();
    let mut queue: VecDeque<u8> = VecDeque::new();
    let mut waiter: Option<TaskId> = None;
    for _ in 0..5000 {
        if random.next(5) < 3 {
            let byte = random.next(256) as u8;
            let expected = if queue.len() < 100 {
                queue.push_back(byte);
                ScancodeOutcome::Queued(waiter.take())
            } else {
                ScancodeOutcome::Dropped
            };
            assert_eq!(stream.add_scancode(byte), expected);
        } else {
            let task = TaskId(random.next(3));
            let expected = queue.pop_front();
            if expected.is_none() {
                waiter = Some(task);
            }
            assert_eq!(stream.poll_next(task), expected);
        }
    }
}
