use basedrop::Collector;
use daw_backend::resource_pool::GraphResourcePool;

type Pool = GraphResourcePool<u32, [f32; 4], [[f32; 4]; 2]>;

#[test]
fn new_pool_is_empty() {
    let collector = Collector::new();
    let pool = Pool::new(collector.handle());
    assert!(pool.nodes().is_empty());
    assert!(pool.mono_audio_buffers().is_empty());
    assert!(pool.stereo_audio_buffers().is_empty());
}

#[test]
fn nodes_are_added_removed_and_replaced_in_place() {
    let collector = Collector::new();
    let mut pool = Pool::new(collector.handle());
    pool.add_node(10);
    pool.add_node(11);
    pool.add_node(12);
    let values: Vec<u32> = pool.nodes().iter().map(|n| *n.borrow()).collect();
    assert_eq!(values, vec![10, 11, 12]);

    assert_eq!(pool.remove_node(3), Err(()));
    assert_eq!(pool.remove_node(1), Ok(()));
    let values: Vec<u32> = pool.nodes().iter().map(|n| *n.borrow()).collect();
    assert_eq!(values, vec![10, 12]);

    assert_eq!(pool.replace_node(2, 99), Err(()));
    assert_eq!(pool.replace_node(0, 20), Ok(()));
    let values: Vec<u32> = pool.nodes().iter().map(|n| *n.borrow()).collect();
    assert_eq!(values, vec![20, 12]);
    assert!(pool.mono_audio_buffers().is_empty());
}

#[test]
fn buffers_are_added_and_removed_from_the_end() {
    let collector = Collector::new();
    let mut pool = Pool::new(collector.handle());
    pool.add_mono_audio_port_buffers(3);
    pool.add_stereo_audio_port_buffers(2);
    assert_eq!(pool.mono_audio_buffers().len(), 3);
    assert_eq!(pool.stereo_audio_buffers().len(), 2);
    assert_eq!(*pool.mono_audio_buffers()[2].borrow(), [0.0f32; 4]);

    pool.mono_audio_buffers()[0].borrow_mut()[0] = 1.5;
    assert_eq!(pool.remove_mono_audio_buffers(4), Err(()));
    assert_eq!(pool.remove_mono_audio_buffers(2), Ok(()));
    assert_eq!(pool.mono_audio_buffers().len(), 1);
    assert_eq!(pool.mono_audio_buffers()[0].borrow()[0], 1.5);
    assert_eq!(pool.stereo_audio_buffers().len(), 2);

    assert_eq!(pool.remove_stereo_audio_buffers(3), Err(()));
    assert_eq!(pool.remove_stereo_audio_buffers(2), Ok(()));
    assert!(pool.stereo_audio_buffers().is_empty());
}

#[test]
fn removing_no_buffers_is_an_error() {
    let collector = Collector::new();
    let mut pool = Pool::new(collector.handle());
    pool.add_mono_audio_port_buffers(2);
    assert_eq!(pool.remove_mono_audio_buffers(0), Err(()));
    assert_eq!(pool.remove_stereo_audio_buffers(0), Err(()));
    assert_eq!(pool.mono_audio_buffers().len(), 2);
}

#[test]
fn removing_added_buffers_restores_the_pool() {
    let collector = Collector::new();
    let mut pool = Pool::new(collector.handle());
    pool.add_mono_audio_port_buffers(2);
    pool.mono_audio_buffers()[1].borrow_mut()[3] = 7.0;
    pool.add_mono_audio_port_buffers(5);
    assert_eq!(pool.remove_mono_audio_buffers(5), Ok(()));
    assert_eq!(pool.mono_audio_buffers().len(), 2);
    assert_eq!(pool.mono_audio_buffers()[1].borrow()[3], 7.0);
}

#[test]
fn clone_shares_every_cell() {
    let collector = Collector::new();
    let mut pool = Pool::new(collector.handle());
    pool.add_node(5);
    pool.add_mono_audio_port_buffers(1);
    let copy = pool.clone();
    assert_eq!(copy.nodes().len(), 1);
    *pool.nodes()[0].borrow_mut() = 6;
    assert_eq!(*copy.nodes()[0].borrow(), 6);
    pool.mono_audio_buffers()[0].borrow_mut()[0] = 0.25;
    assert_eq!(copy.mono_audio_buffers()[0].borrow()[0], 0.25);
}

#[test]
fn new_buffers_and_nodes_are_separate_cells() {
    let collector = Collector::new();
    let mut pool = Pool::new(collector.handle());
    pool.add_mono_audio_port_buffers(3);
    pool.mono_audio_buffers()[1].borrow_mut()[0] = 2.0;
    assert_eq!(pool.mono_audio_buffers()[0].borrow()[0], 0.0);
    assert_eq!(pool.mono_audio_buffers()[2].borrow()[0], 0.0);
    pool.add_stereo_audio_port_buffers(2);
    pool.stereo_audio_buffers()[0].borrow_mut()[1][0] = 3.0;
    assert_eq!(pool.stereo_audio_buffers()[1].borrow()[1][0], 0.0);

    pool.add_node(1);
    pool.add_node(2);
    let kept = pool.nodes()[0].clone();
    assert_eq!(pool.replace_node(0, 9), Ok(()));
    *kept.borrow_mut() = 7;
    assert_eq!(*pool.nodes()[0].borrow(), 9);
    assert_eq!(*pool.nodes()[1].borrow(), 2);
}
