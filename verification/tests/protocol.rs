use std::collections::HashMap;
use std::collections::VecDeque;

use oppgave::{
    acknowledged, payload_text, Command, Error, ErrorKind, Queue, Reply, Response, TaskDecodable,
    TaskEncodable, TaskGuard,
};
use rustc_serialize::json;
use rustc_serialize::{Decodable, Decoder, Encodable, Encoder};

struct Job {
    id: u64,
}

impl Decodable for Job {
    fn decode<D: Decoder>(d: &mut D) -> Result<Job, D::Error> {
        d.read_struct("Job", 1, |d| {
            let id = d.read_struct_field("id", 0, |d| d.read_u64())?;
            Ok(Job { id })
        })
    }
}

impl Encodable for Job {
    fn encode<S: Encoder>(&self, s: &mut S) -> Result<(), S::Error> {
        s.emit_struct("Job", 1, |s| s.emit_struct_field("id", 0, |s| s.emit_u64(self.id)))
    }
}

impl TaskDecodable for Job {
    fn decoded(payload: Vec<u8>) -> Option<Job> {
        let text = String::from_utf8(payload).ok()?;
        json::decode(&text).ok()
    }

    fn decode_task(value: &Reply) -> Result<Job, Error> {
        let text = payload_text(value)?;
        json::decode(text).map_err(|_| Error::Decode)
    }
}

impl TaskEncodable for Job {
    fn encoded(&self) -> Option<Vec<u8>> {
        json::encode(self).ok().map(String::into_bytes)
    }

    fn encode_task(&self) -> Result<Vec<u8>, Error> {
        json::encode(self).map(String::into_bytes).map_err(|_| Error::Encode)
    }
}

/// A job that has no payload.
struct Unwritable;

impl TaskEncodable for Unwritable {
    fn encoded(&self) -> Option<Vec<u8>> {
        None
    }

    fn encode_task(&self) -> Result<Vec<u8>, Error> {
        Err(Error::Encode)
    }
}

/// A broker that keeps its lists in memory. The head of a list is its front.
struct MemoryBroker {
    lists: HashMap<String, VecDeque<Vec<u8>>>,
    down: bool,
}

impl MemoryBroker {
    fn new() -> MemoryBroker {
        MemoryBroker { lists: HashMap::new(), down: false }
    }

    fn run(&mut self, command: &Command) -> Response {
        if self.down {
            return Response::Failed;
        }
        match command {
            Command::Append { list, payload } => {
                let l = self.lists.entry(list.clone()).or_default();
                l.push_front(payload.clone());
                Response::Reply(Reply::Int(l.len() as i64))
            }
            Command::AtomicMove { source, destination } => {
                let moved = self.lists.entry(source.clone()).or_default().pop_back();
                match moved {
                    Some(payload) => {
                        self.lists
                            .entry(destination.clone())
                            .or_default()
                            .push_back(payload.clone());
                        Response::Reply(Reply::Data(payload))
                    }
                    None => panic!("the fetch would wait forever"),
                }
            }
            Command::Length { list } => Response::Reply(Reply::Int(self.len(list) as i64)),
            Command::RemoveHead { list } => {
                match self.lists.entry(list.clone()).or_default().pop_front() {
                    Some(payload) => Response::Reply(Reply::Data(payload)),
                    None => Response::Reply(Reply::Nil),
                }
            }
        }
    }

    fn del(&mut self, list: &str) {
        self.lists.remove(list);
    }

    fn lpush(&mut self, list: &str, payload: &str) {
        self.lists.entry(list.to_string()).or_default().push_front(payload.as_bytes().to_vec());
    }

    fn rpush(&mut self, list: &str, payload: &str) {
        self.lists.entry(list.to_string()).or_default().push_back(payload.as_bytes().to_vec());
    }

    fn lrange(&self, list: &str) -> Vec<String> {
        match self.lists.get(list) {
            Some(l) => l.iter().map(|p| String::from_utf8(p.clone()).unwrap()).collect(),
            None => Vec::new(),
        }
    }

    fn len(&self, list: &str) -> usize {
        self.lists.get(list).map(|l| l.len()).unwrap_or(0)
    }
}

fn worker(name: &str) -> Queue {
    Queue::new(name.to_string(), 4711, None)
}

fn size(queue: &Queue, broker: &mut MemoryBroker) -> u64 {
    let response = broker.run(&queue.size_command());
    queue.size(&response).unwrap()
}

fn push<T: TaskEncodable>(queue: &Queue, broker: &mut MemoryBroker, task: T) -> Result<(), Error> {
    let command = queue.push(task)?;
    let response = broker.run(&command);
    queue.pushed(&response)
}

fn next<'a>(queue: &'a mut Queue, broker: &mut MemoryBroker) -> Option<Result<TaskGuard<'a, Job>, Error>> {
    let command = queue.fetch_command()?;
    let response = broker.run(&command);
    queue.next(&response)
}

fn release(guard: TaskGuard<Job>, broker: &mut MemoryBroker) {
    if let Some(command) = guard.release() {
        let response = broker.run(&command);
        acknowledged(&response).expect("LPOP from backup queue failed");
    }
}

#[test]
fn decodes_job() {
    let mut con = MemoryBroker::new();
    let mut worker = worker("default");

    con.rpush(worker.queue(), "{\"id\":42}");

    let j = next(&mut worker, &mut con).unwrap().unwrap();
    assert_eq!(42, j.id);
}

#[test]
fn releases_job() {
    let mut con = MemoryBroker::new();
    let mut worker = worker("default");
    let bqueue = worker.backup_queue().to_string();

    con.del(&bqueue);
    con.lpush(worker.queue(), "{\"id\":42}");

    {
        let j = next(&mut worker, &mut con).unwrap().unwrap();
        assert_eq!(42, j.id);
        let in_backup: Vec<String> = con.lrange(&bqueue);
        assert_eq!(1, in_backup.len());
        assert_eq!("{\"id\":42}", in_backup[0]);
        release(j, &mut con);
    }

    let in_backup = con.len(&bqueue) as u32;
    assert_eq!(0, in_backup);
}

#[test]
fn can_be_stopped() {
    let mut con = MemoryBroker::new();
    let mut worker = worker("stopper");

    con.del(worker.queue());
    con.lpush(worker.queue(), "{\"id\":1}");
    con.lpush(worker.queue(), "{\"id\":2}");
    con.lpush(worker.queue(), "{\"id\":3}");

    assert_eq!(3, size(&worker, &mut con));

    let mut rounds = 0;
    while let Some(task) = next(&mut worker, &mut con) {
        let mut task = task.unwrap();
        task.stop();
        release(task, &mut con);
        rounds += 1;
    }

    assert_eq!(1, rounds);
    assert_eq!(2, size(&worker, &mut con));
}

#[test]
fn can_enqueue() {
    let mut con = MemoryBroker::new();
    let mut worker = worker("enqueue");
    con.del(worker.queue());

    assert_eq!(0, size(&worker, &mut con));

    push(&worker, &mut con, Job { id: 53 }).unwrap();

    assert_eq!(1, size(&worker, &mut con));

    let j = next(&mut worker, &mut con).unwrap().unwrap();
    assert_eq!(53, j.id);
}

#[test]
fn does_not_drop_failed() {
    let mut con = MemoryBroker::new();
    let mut worker = worker("failure");
    let bqueue = worker.backup_queue().to_string();

    con.del(worker.queue());
    con.del(&bqueue);
    con.lpush(worker.queue(), "{\"id\":1}");

    {
        let mut task: TaskGuard<Job> = next(&mut worker, &mut con).unwrap().unwrap();
        task.fail();
        release(task, &mut con);
    }

    let len = con.len(&bqueue) as u32;
    assert_eq!(1, len);
}

#[test]
fn acknowledged_job_is_in_neither_list() {
    let mut con = MemoryBroker::new();
    let mut worker = worker("ack");
    let main = worker.queue().to_string();
    let backup = worker.backup_queue().to_string();

    push(&worker, &mut con, Job { id: 7 }).unwrap();
    assert_eq!(con.lrange(&main), vec!["{\"id\":7}".to_string()]);

    let task = next(&mut worker, &mut con).unwrap().unwrap();
    assert_eq!(7, task.inner().id);
    assert!(!task.is_failed());
    release(task, &mut con);

    assert_eq!(0, con.len(&main));
    assert_eq!(0, con.len(&backup));
}

#[test]
fn failed_job_is_stranded_in_backup() {
    let mut con = MemoryBroker::new();
    let mut worker = worker("strand");
    let main = worker.queue().to_string();
    let backup = worker.backup_queue().to_string();

    push(&worker, &mut con, Job { id: 8 }).unwrap();
    let mut task = next(&mut worker, &mut con).unwrap().unwrap();
    task.fail();
    task.fail();
    assert!(task.is_failed());
    assert!(task.release().is_none());

    assert_eq!(con.lrange(&backup), vec!["{\"id\":8}".to_string()]);
    assert_eq!(0, con.len(&main));
}

#[test]
fn release_sends_the_acknowledgment() {
    let mut con = MemoryBroker::new();
    let mut worker = worker("ackcmd");
    let backup = worker.backup_queue().to_string();
    con.lpush(worker.queue(), "{\"id\":9}");

    let task = next(&mut worker, &mut con).unwrap().unwrap();
    match task.release() {
        Some(Command::RemoveHead { list }) => assert_eq!(list, backup),
        other => panic!("unexpected command: {:?}", other),
    }
}

#[test]
fn jobs_come_out_in_the_order_they_went_in() {
    let mut con = MemoryBroker::new();
    let mut worker = worker("fifo");
    for id in [1u64, 2, 3] {
        push(&worker, &mut con, Job { id }).unwrap();
    }
    for id in [1u64, 2, 3] {
        let task = next(&mut worker, &mut con).unwrap().unwrap();
        assert_eq!(id, task.id);
        release(task, &mut con);
    }
    assert_eq!(0, size(&worker, &mut con));
}

#[test]
fn stopped_handle_has_no_more_work() {
    let mut con = MemoryBroker::new();
    let mut worker = worker("halt");
    con.lpush(worker.queue(), "{\"id\":1}");
    assert!(!worker.is_stopped());
    assert!(worker.fetch_command().is_some());

    worker.stop();
    worker.stop();
    assert!(worker.is_stopped());
    assert!(worker.fetch_command().is_none());
    assert!(next(&mut worker, &mut con).is_none());
    assert!(next(&mut worker, &mut con).is_none());
    let answered = Response::Reply(Reply::Data(b"{\"id\":1}".to_vec()));
    assert!(worker.next::<Job>(&answered).is_none());
    assert_eq!(1, size(&worker, &mut con));
}

#[test]
fn guard_gives_access_to_its_queue() {
    let mut con = MemoryBroker::new();
    let mut worker = worker("access");
    let main = worker.queue().to_string();
    con.lpush(&main, "{\"id\":5}");

    let mut task = next(&mut worker, &mut con).unwrap().unwrap();
    assert_eq!(task.queue().queue(), main);
    assert!(!task.queue().is_stopped());
    task.stop();
    assert!(task.queue().is_stopped());
    release(task, &mut con);
    assert!(worker.is_stopped());
}

#[test]
fn size_counts_waiting_jobs() {
    let mut con = MemoryBroker::new();
    let mut worker = worker("count");
    assert_eq!(0, size(&worker, &mut con));
    for id in 0..5u64 {
        push(&worker, &mut con, Job { id }).unwrap();
    }
    assert_eq!(5, size(&worker, &mut con));

    let task = next(&mut worker, &mut con).unwrap().unwrap();
    release(task, &mut con);
    assert_eq!(4, size(&worker, &mut con));

    con.rpush(worker.queue(), "not json");
    assert_eq!(5, size(&worker, &mut con));
    assert!(next(&mut worker, &mut con).unwrap().is_err());
    assert_eq!(4, size(&worker, &mut con));
}

#[test]
fn size_is_zero_without_a_count() {
    let worker = worker("nocount");
    assert_eq!(Ok(0), worker.size(&Response::Reply(Reply::Nil)));
    assert_eq!(Ok(0), worker.size(&Response::Reply(Reply::Int(0))));
    assert_eq!(Ok(0), worker.size(&Response::Reply(Reply::Int(-3))));
    assert_eq!(Ok(0), worker.size(&Response::Reply(Reply::Data(b"12".to_vec()))));
    assert_eq!(Ok(12), worker.size(&Response::Reply(Reply::Int(12))));
    assert_eq!(Ok(i64::MAX as u64), worker.size(&Response::Reply(Reply::Int(i64::MAX))));
}

#[test]
fn size_reports_a_broker_failure() {
    let mut con = MemoryBroker::new();
    let worker = worker("sizedown");
    push(&worker, &mut con, Job { id: 1 }).unwrap();
    assert_eq!(Err(Error::Transport), worker.size(&Response::Failed));
    con.down = true;
    let response = con.run(&worker.size_command());
    assert_eq!(Err(Error::Transport), worker.size(&response));
    con.down = false;
    assert_eq!(1, size(&worker, &mut con));
}

#[test]
fn size_command_asks_for_the_main_list() {
    let worker = worker("ask");
    match worker.size_command() {
        Command::Length { list } => assert_eq!(list, "oppgave:ask"),
        other => panic!("unexpected command: {:?}", other),
    }
}

#[test]
fn push_appends_the_encoded_job_to_the_main_list() {
    let worker = worker("cmd");
    match worker.push(Job { id: 42 }) {
        Ok(Command::Append { list, payload }) => {
            assert_eq!(list, "oppgave:cmd");
            assert_eq!(payload, b"{\"id\":42}".to_vec());
        }
        other => panic!("unexpected result: {:?}", other),
    }
    match worker.push_payload(vec![1, 2, 3]) {
        Command::Append { list, payload } => {
            assert_eq!(list, "oppgave:cmd");
            assert_eq!(payload, vec![1, 2, 3]);
        }
        other => panic!("unexpected command: {:?}", other),
    }
}

#[test]
fn push_reports_a_job_that_cannot_be_encoded() {
    let mut con = MemoryBroker::new();
    let worker = worker("unwritable");
    assert_eq!(push(&worker, &mut con, Unwritable), Err(Error::Encode));
    assert_eq!(0, con.len(worker.queue()));
}

#[test]
fn push_reports_a_broker_failure() {
    let mut con = MemoryBroker::new();
    con.down = true;
    let worker = worker("down");
    assert_eq!(push(&worker, &mut con, Job { id: 1 }), Err(Error::Transport));
    assert_eq!(worker.pushed(&Response::Reply(Reply::Int(1))), Ok(()));
}

#[test]
fn fetch_moves_from_main_list_to_backup_list() {
    let worker = worker("move");
    match worker.fetch_command() {
        Some(Command::AtomicMove { source, destination }) => {
            assert_eq!(source, "oppgave:move");
            assert_eq!(destination, "oppgave:move:4711:default");
        }
        other => panic!("unexpected command: {:?}", other),
    }
}

#[test]
fn next_reports_a_broker_failure() {
    let mut worker = worker("broken");
    match worker.next::<Job>(&Response::Failed) {
        Some(Err(e)) => {
            assert_eq!(e, Error::Transport);
            assert_eq!(e.kind(), ErrorKind::Transport);
        }
        _ => panic!("expected a transport failure"),
    }
}

#[test]
fn next_rejects_a_reply_that_is_no_payload() {
    let mut worker = worker("shape");
    let replies = vec![
        Reply::Nil,
        Reply::Int(1),
        Reply::Okay,
        Reply::Status("OK".to_string()),
        Reply::Bulk(vec![Reply::Data(b"{\"id\":1}".to_vec())]),
    ];
    for reply in replies {
        match worker.next::<Job>(&Response::Reply(reply)) {
            Some(Err(e)) => {
                assert_eq!(e, Error::Protocol);
                assert_eq!(e.kind(), ErrorKind::Decode);
            }
            _ => panic!("expected a protocol failure"),
        }
    }
}

#[test]
fn undecodable_payload_stays_in_backup() {
    let mut con = MemoryBroker::new();
    let mut worker = worker("corrupt");
    let backup = worker.backup_queue().to_string();
    con.lpush(worker.queue(), "{\"id\":\"seven\"}");

    match next(&mut worker, &mut con) {
        Some(Err(e)) => {
            assert_eq!(e, Error::Decode);
            assert_eq!(e.kind(), ErrorKind::Decode);
        }
        _ => panic!("expected a decode failure"),
    }
    assert_eq!(con.lrange(&backup), vec!["{\"id\":\"seven\"}".to_string()]);
    assert_eq!(0, con.len(worker.queue()));
}

#[test]
fn payload_that_is_not_utf8_fails_to_decode() {
    let mut worker = worker("bytes");
    let response = Response::Reply(Reply::Data(vec![0xff, 0xfe, 0x7b]));
    match worker.next::<Job>(&response) {
        Some(Err(e)) => assert_eq!(e, Error::Decode),
        _ => panic!("expected a decode failure"),
    }
}

#[test]
fn guard_wraps_a_decoded_job() {
    let mut worker = worker("wrap");
    let guard = worker.guard(Ok(Job { id: 3 })).unwrap();
    assert_eq!(3, guard.inner().id);
    assert_eq!(3, guard.id);
    assert!(!guard.is_failed());
    assert!(guard.release().is_some());
    assert_eq!(worker.guard::<Job>(Err(Error::Decode)).err(), Some(Error::Decode));
}

#[test]
fn payload_text_reads_utf8() {
    let reply = Reply::Data(b"{\"id\":42}".to_vec());
    assert_eq!(payload_text(&reply), Ok("{\"id\":42}"));
    let reply = Reply::Data("gr\u{fc}\u{df}e".as_bytes().to_vec());
    assert_eq!(payload_text(&reply), Ok("gr\u{fc}\u{df}e"));
    assert_eq!(payload_text(&Reply::Data(Vec::new())), Ok(""));
}

#[test]
fn payload_text_rejects_bad_utf8() {
    let reply = Reply::Data(vec![0xff, 0xfe]);
    assert_eq!(payload_text(&reply), Err(Error::Decode));
}

#[test]
fn payload_text_rejects_other_shapes() {
    assert_eq!(payload_text(&Reply::Nil), Err(Error::Protocol));
    assert_eq!(payload_text(&Reply::Int(3)), Err(Error::Protocol));
    assert_eq!(payload_text(&Reply::Okay), Err(Error::Protocol));
    assert_eq!(payload_text(&Reply::Status("OK".to_string())), Err(Error::Protocol));
    assert_eq!(payload_text(&Reply::Bulk(vec![Reply::Data(vec![1])])), Err(Error::Protocol));
}

#[test]
fn codec_does_what_its_model_says() {
    for id in [0u64, 7, u64::MAX] {
        let job = Job { id };
        assert_eq!(job.encode_task().ok(), job.encoded());
    }
    assert_eq!(Unwritable.encode_task().ok(), Unwritable.encoded());
    let payloads: Vec<Vec<u8>> = vec![
        b"{\"id\":42}".to_vec(),
        b"{\"id\":\"seven\"}".to_vec(),
        b"not json".to_vec(),
        vec![0xff, 0xfe],
        Vec::new(),
    ];
    for payload in payloads {
        let read = Job::decode_task(&Reply::Data(payload.clone()));
        match Job::decoded(payload) {
            Some(job) => assert_eq!(read.ok().map(|j| j.id), Some(job.id)),
            None => assert_eq!(read.err(), Some(Error::Decode)),
        }
    }
}

#[test]
fn job_round_trip() {
    for id in [0u64, 1, 42, u64::MAX] {
        let bytes = Job { id }.encode_task().unwrap();
        let back = Job::decode_task(&Reply::Data(bytes)).unwrap();
        assert_eq!(back.id, id);
    }
    assert_eq!(Job { id: 42 }.encode_task().unwrap(), b"{\"id\":42}".to_vec());
}

#[test]
fn error_kinds() {
    assert_eq!(Error::Transport.kind(), ErrorKind::Transport);
    assert_eq!(Error::Protocol.kind(), ErrorKind::Decode);
    assert_eq!(Error::Decode.kind(), ErrorKind::Decode);
    assert_eq!(Error::Encode.kind(), ErrorKind::Decode);
    assert_eq!(Error::Acknowledge.kind(), ErrorKind::Transport);
}

#[test]
fn failed_acknowledgment_is_reported() {
    assert_eq!(acknowledged(&Response::Failed), Err(Error::Acknowledge));
    assert_eq!(acknowledged(&Response::Reply(Reply::Data(vec![1]))), Ok(()));
    assert_eq!(acknowledged(&Response::Reply(Reply::Nil)), Ok(()));
}

#[test]
fn commands_compare_by_value() {
    let worker = worker("same");
    assert_eq!(
        worker.fetch_command(),
        Some(Command::AtomicMove {
            source: "oppgave:same".to_string(),
            destination: "oppgave:same:4711:default".to_string(),
        })
    );
    assert_eq!(worker.size_command(), Command::Length { list: "oppgave:same".to_string() });
}
