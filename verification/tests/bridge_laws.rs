use async_zero_cost_templating::future_to_stream::{
    bridge_run, the_stream_run, BridgeState, FutureToStream, FutureToStreamYieldFuture,
    ProducerPoll, QueuePoll, StreamPoll, TaskPoll, TemplateToStream, TheStream, YieldPoll,
};
use async_zero_cost_templating::intermediate::simplify;
use async_zero_cost_templating::lower::lower_element_nodes;
use async_zero_cost_templating::parse::parse_template;
use async_zero_cost_templating::render::{render, RenderEnv};
use async_zero_cost_templating::tokens::{Delim, Span, Tok};

#[test]
fn test1() {
    // a producer that emits 1 then 2 through the single-item slot delivers
    // exactly 1 then 2
    let delivered = the_stream_run(vec![1usize, 2]);
    assert_eq!(delivered, vec![1usize, 2]);
}

#[test]
fn cooperative_bridge_delivers_in_order() {
    let items = vec!["a".to_string(), "b".to_string(), "c".to_string()];
    let delivered = the_stream_run(items.clone());
    assert_eq!(delivered, items);
}

#[test]
fn cooperative_bridge_handles_empty_producer() {
    let delivered: Vec<u32> = the_stream_run(Vec::new());
    assert!(delivered.is_empty());
}

#[test]
fn yield_future_pends_until_slot_drained() {
    let mut slot: FutureToStream<u32> = FutureToStream::new();
    let suspension = slot._yield(7);
    assert!(matches!(suspension.poll(&slot), YieldPoll::Pending));
    let mut stream = TheStream::new(slot);
    match stream.poll_next(ProducerPoll::Suspended) {
        StreamPoll::Item(v) => assert_eq!(v, 7),
        _ => panic!("the occupied slot must be drained"),
    }
    assert!(matches!(
        FutureToStreamYieldFuture {}.poll(&stream.future_to_stream),
        YieldPoll::Ready
    ));
}

#[test]
fn cooperative_stream_ends_on_finished_producer() {
    let mut stream: TheStream<u32> = TheStream::new(FutureToStream::new());
    assert!(matches!(stream.poll_next(ProducerPoll::Finished), StreamPoll::End));
    assert!(matches!(stream.poll_next(ProducerPoll::Suspended), StreamPoll::Pending));
}

#[test]
fn channel_bridge_delivers_in_order() {
    let items = vec!["x".to_string(), "y".to_string(), "z".to_string()];
    let delivered = bridge_run(items.clone());
    assert_eq!(delivered, items);
}

#[test]
fn channel_bridge_handles_empty_producer() {
    let delivered: Vec<u32> = bridge_run(Vec::new());
    assert!(delivered.is_empty());
}

#[test]
fn channel_bridge_keeps_final_item_on_completion_race() {
    // the producer reports completion on the same poll in which the final
    // item becomes available: the item must still be delivered, and the
    // sequence must end afterwards
    let mut bridge = TemplateToStream::new();
    match bridge.poll_next(TaskPoll::Complete, QueuePoll::Item(42u32)) {
        StreamPoll::Item(v) => assert_eq!(v, 42),
        _ => panic!("the final item raced with completion and was dropped"),
    }
    assert!(matches!(bridge.state, BridgeState::Running));
    // next pull: the producer is complete and the queue shows empty
    match bridge.poll_next::<u32>(TaskPoll::Complete, QueuePoll::Empty) {
        StreamPoll::Pending => {}
        _ => panic!("the bridge must drain before honouring completion"),
    }
    assert!(matches!(bridge.state, BridgeState::Draining));
    // draining: an item still in the queue is delivered
    match bridge.poll_next(TaskPoll::Complete, QueuePoll::Item(7u32)) {
        StreamPoll::Item(v) => assert_eq!(v, 7),
        _ => panic!("draining must deliver what the queue holds"),
    }
    assert!(matches!(bridge.state, BridgeState::Draining));
    // draining with an empty queue ends the sequence
    assert!(matches!(
        bridge.poll_next::<u32>(TaskPoll::Complete, QueuePoll::Empty),
        StreamPoll::End
    ));
    assert!(matches!(bridge.state, BridgeState::Done));
    // done is terminal
    assert!(matches!(
        bridge.poll_next::<u32>(TaskPoll::Complete, QueuePoll::Empty),
        StreamPoll::End
    ));
}

#[test]
fn rendered_chunks_survive_the_bridge_unchanged() {
    // the chunks a compiled template emits arrive at the consumer exactly as
    // emitted, in order, through either bridge
    let tokens = vec![
        Tok::Str("a".to_string(), Span { lo: 0, hi: 1 }),
        Tok::Group(
            Delim::Paren,
            vec![Tok::Ident("x".to_string(), Span { lo: 2, hi: 3 })],
            Span { lo: 1, hi: 2 },
        ),
        Tok::Str("b".to_string(), Span { lo: 3, hi: 4 }),
    ];
    let parsed = parse_template(tokens);
    let ir = simplify(lower_element_nodes(parsed.value));
    let env = RenderEnv {
        conds: Vec::new(),
        vals: vec![("x".to_string(), "mid".to_string())],
        loops: Vec::new(),
    };
    let chunks = render(&ir, &env);
    assert_eq!(bridge_run(chunks.clone()), chunks);
    assert_eq!(the_stream_run(chunks.clone()), chunks);
}

#[test]
fn channel_bridge_stays_running_while_producer_progresses() {
    let mut bridge = TemplateToStream::new();
    assert!(matches!(
        bridge.poll_next::<u32>(TaskPoll::Progress, QueuePoll::Empty),
        StreamPoll::Pending
    ));
    assert!(matches!(bridge.state, BridgeState::Running));
    match bridge.poll_next(TaskPoll::Progress, QueuePoll::Item(1u32)) {
        StreamPoll::Item(v) => assert_eq!(v, 1),
        _ => panic!("an item in the queue must be delivered"),
    }
    assert!(matches!(bridge.state, BridgeState::Running));
}
