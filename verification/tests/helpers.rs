use corona::producer::Producer;
use corona::stream::StreamIterator;
use corona::wait::Await;
use corona::worker::Worker;
use corona::Coroutine;
use futures::unsync::mpsc;
use futures::{Future, Sink, Stream};
use tokio_core::reactor::Core;

#[test]
fn the_iterator_holds_the_stream_between_steps() {
    let mut iterator = StreamIterator::new("stream");
    assert_eq!(iterator.advance(), Some("stream"));
    assert_eq!(iterator.advance(), None);
}

#[test]
fn next_passes_an_item_on() {
    let mut iterator = StreamIterator::new("stream");
    let stream = iterator.advance().unwrap();
    let resolved: Result<(Option<u32>, &str), (String, &str)> = Ok((Some(1), stream));
    assert_eq!(iterator.next(resolved), Some(Ok(1)));
    assert_eq!(iterator.advance(), Some("stream"));
}

#[test]
fn next_ends_with_the_stream() {
    let mut iterator = StreamIterator::new("stream");
    iterator.advance();
    let resolved: Result<(Option<u32>, &str), (String, &str)> = Ok((None, "rest"));
    assert_eq!(iterator.next(resolved), None);
    assert_eq!(iterator.advance(), Some("rest"));
}

#[test]
fn next_passes_an_error_on_and_goes_on() {
    let mut iterator = StreamIterator::new("stream");
    iterator.advance();
    let resolved: Result<(Option<u32>, &str), (String, &str)> =
        Err(("broken".to_string(), "rest"));
    assert_eq!(iterator.next(resolved), Some(Err("broken".to_string())));
    let resolved: Result<(Option<u32>, &str), (String, &str)> =
        Ok((Some(2), iterator.advance().unwrap()));
    assert_eq!(iterator.next(resolved), Some(Ok(2)));
    assert_eq!(iterator.advance(), Some("rest"));
}

#[test]
fn the_iterator_walks_a_real_stream() {
    let (sender, receiver) = mpsc::unbounded();
    sender.unbounded_send(42).unwrap();
    sender.unbounded_send(12).unwrap();
    drop(sender);
    let mut iterator = StreamIterator::new(receiver);
    let mut items = Vec::new();
    loop {
        let stream = iterator.advance().unwrap();
        match iterator.next(stream.into_future().wait()) {
            Some(item) => items.push(item.unwrap()),
            None => break,
        }
    }
    assert_eq!(items, vec![42, 12]);
}

#[test]
fn the_running_coroutine_makes_an_iterator() {
    let core = Core::new().unwrap();
    let mut worker: Worker<u32, u8, u8> = Worker::new();
    let spawn = |worker: &mut Worker<u32, u8, u8>| {
        Coroutine::new(core.handle()).spawn::<u32, String, _, _, _, _>(worker, |_| 0).unwrap()
    };
    let _result = spawn(&mut worker);
    worker.enter(0);
    let current = Await::current(&mut worker).unwrap();
    let mut iterator = current.stream("stream");
    assert_eq!(iterator.advance(), Some("stream"));
    assert_eq!(iterator.advance(), None);
}

#[test]
fn the_producer_holds_the_sink_between_items() {
    let mut producer = Producer::new("sink");
    assert_eq!(producer.produce(), Some("sink"));
    assert_eq!(producer.produce(), None);
}

#[test]
fn the_producer_keeps_a_sink_that_accepted() {
    let mut producer = Producer::new("sink");
    let sink = producer.produce().unwrap();
    let sent: Result<&str, String> = Ok(sink);
    producer.produced(sent);
    assert_eq!(producer.produce(), Some("sink"));
}

#[test]
fn the_producer_is_closed_after_an_error() {
    let mut producer = Producer::new("sink");
    producer.produce();
    let sent: Result<&str, String> = Err("closed".to_string());
    producer.produced(sent);
    assert_eq!(producer.produce(), None);
    let sent: Result<&str, String> = Err("closed".to_string());
    producer.produced(sent);
    assert_eq!(producer.produce(), None);
}

#[test]
fn an_error_does_not_take_a_sink_away() {
    let mut producer = Producer::new("sink");
    let sent: Result<&str, String> = Err("late".to_string());
    producer.produced(sent);
    assert_eq!(producer.produce(), Some("sink"));
}

#[test]
fn the_producer_sends_into_a_real_channel() {
    let (sender, receiver) = mpsc::channel(2);
    let mut producer = Producer::new(sender);
    for item in vec![42, 12] {
        let sink = producer.produce().unwrap();
        producer.produced(sink.send(item).wait());
    }
    drop(producer);
    assert_eq!(receiver.collect().wait(), Ok(vec![42, 12]));
}

#[test]
fn the_producer_drops_what_a_closed_channel_refuses() {
    let (sender, receiver) = mpsc::channel::<u32>(1);
    drop(receiver);
    let mut producer = Producer::new(sender);
    let sink = producer.produce().unwrap();
    let sent = sink.send(42).wait();
    assert!(sent.is_err());
    producer.produced(sent);
    assert!(producer.produce().is_none());
}
