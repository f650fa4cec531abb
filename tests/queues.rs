use floem_update::arena::ViewArena;
use floem_update::id::ViewId;
use floem_update::queue::UpdateQueues;

#[test]
fn global_queue_is_fifo() {
    let mut arena = ViewArena::new();
    let a = arena.new_view();
    let b = arena.new_view();
    let mut q: UpdateQueues<u32, u8> = UpdateQueues::new();
    q.add_global(a, 1);
    q.add_global(b, 2);
    q.add_global(a, 3);
    let out = q.drain_global(&arena);
    assert_eq!(out, vec![(a, 1), (b, 2), (a, 3)]);
    assert!(q.drain_global(&arena).is_empty());
}

#[test]
fn view_queue_is_fifo_and_delivered_once() {
    let mut arena = ViewArena::new();
    let a = arena.new_view();
    let mut q: UpdateQueues<&str, u8> = UpdateQueues::new();
    q.update_state(a, "x");
    q.update_state(a, "y");
    assert_eq!(q.drain_view_messages(&arena), vec![(a, "x"), (a, "y")]);
    assert_eq!(q.drain_view_messages(&arena), vec![]);
}

#[test]
fn removed_target_is_dropped_silently() {
    let mut arena = ViewArena::new();
    let a = arena.new_view();
    let b = arena.new_view();
    arena.remove(a);
    let mut q: UpdateQueues<u32, u8> = UpdateQueues::new();
    q.add_global(a, 1);
    q.add_global(b, 2);
    q.update_state(a, 3);
    assert_eq!(q.drain_global(&arena), vec![(b, 2)]);
    assert_eq!(q.drain_view_messages(&arena), vec![]);
    assert!(q.drain_global(&arena).is_empty());
}

#[test]
fn unknown_target_is_dropped_silently() {
    let arena = ViewArena::new();
    let mut q: UpdateQueues<u32, u8> = UpdateQueues::new();
    q.add_global(ViewId { raw: 7 }, 1);
    assert_eq!(q.drain_global(&arena), vec![]);
}

#[test]
fn enqueue_during_delivery_waits_for_next_cycle() {
    let mut arena = ViewArena::new();
    let a = arena.new_view();
    let mut q: UpdateQueues<u32, u8> = UpdateQueues::new();
    q.add_global(a, 1);
    let batch = q.drain_global(&arena);
    let mut delivered = Vec::new();
    for (target, m) in batch {
        delivered.push(m);
        // the handler queues another message to itself
        q.add_global(target, m + 1);
    }
    assert_eq!(delivered, vec![1]);
    assert_eq!(q.drain_global(&arena), vec![(a, 2)]);
}

#[test]
fn deferred_waits_until_context_attached() {
    let mut arena = ViewArena::new();
    let ctx = arena.new_view();
    let target = arena.new_view();
    let mut q: UpdateQueues<u32, u8> = UpdateQueues::new();
    q.add_deferred(ctx, target, 9);
    assert_eq!(q.drain_deferred(&arena), vec![]);
    assert_eq!(q.drain_deferred(&arena), vec![]);
    arena.set_children(ctx, &vec![target]);
    assert_eq!(q.drain_deferred(&arena), vec![(target, 9)]);
    assert_eq!(q.drain_deferred(&arena), vec![]);
}

#[test]
fn deferred_dropped_when_context_removed() {
    let mut arena = ViewArena::new();
    let ctx = arena.new_view();
    let target = arena.new_view();
    let mut q: UpdateQueues<u32, u8> = UpdateQueues::new();
    q.add_deferred(ctx, target, 9);
    arena.remove(ctx);
    assert_eq!(q.drain_deferred(&arena), vec![]);
    let ctx2 = arena.new_view();
    arena.set_children(ctx2, &vec![]);
    assert_eq!(q.drain_deferred(&arena), vec![]);
}

#[test]
fn deferred_keeps_order_among_ready_entries() {
    let mut arena = ViewArena::new();
    let c1 = arena.new_view();
    let c2 = arena.new_view();
    let t = arena.new_view();
    let mut q: UpdateQueues<u32, u8> = UpdateQueues::new();
    q.add_deferred(c1, t, 1);
    q.add_deferred(c2, t, 2);
    q.add_deferred(c1, t, 3);
    arena.set_children(c1, &vec![]);
    assert_eq!(q.drain_deferred(&arena), vec![(t, 1), (t, 3)]);
    arena.set_children(c2, &vec![]);
    assert_eq!(q.drain_deferred(&arena), vec![(t, 2)]);
}

#[test]
fn animations_drain_in_order() {
    let mut q: UpdateQueues<u32, u8> = UpdateQueues::new();
    q.add_animation(3);
    q.add_animation(1);
    q.add_animation(2);
    assert_eq!(q.drain_animations(), vec![3, 1, 2]);
    assert_eq!(q.drain_animations(), Vec::<u8>::new());
}

#[test]
fn cycle_drains_every_queue_once() {
    let mut arena = ViewArena::new();
    let a = arena.new_view();
    let ctx = arena.new_view();
    let gone = arena.new_view();
    arena.remove(gone);
    let mut q: UpdateQueues<u32, u8> = UpdateQueues::new();
    q.add_global(a, 1);
    q.add_global(gone, 2);
    q.update_state(a, 3);
    q.add_deferred(ctx, a, 4);
    q.add_animation(5);
    let c = q.drain_cycle(&arena);
    assert_eq!(c.global, vec![(a, 1)]);
    assert_eq!(c.states, vec![(a, 3)]);
    assert_eq!(c.deferred, vec![]);
    assert_eq!(c.animations, vec![5]);
    arena.set_children(ctx, &vec![a]);
    let c = q.drain_cycle(&arena);
    assert!(c.global.is_empty() && c.states.is_empty() && c.animations.is_empty());
    assert_eq!(c.deferred, vec![(a, 4)]);
    let c = q.drain_cycle(&arena);
    assert!(c.deferred.is_empty());
}
