use std::time::Instant;
use termcom::memory::{
    capped_mul, usage_reaches, BoundedVec, MemoryManager, MemoryStatus,
};
use termcom::time::Timestamp;

#[test]
fn test_memory_manager_creation() {
    let manager = MemoryManager::new(100);
    let stats = manager.get_memory_stats();

    assert_eq!(stats.max_allowed_bytes, 100 * 1024 * 1024);
    assert_eq!(stats.allocations, 0);
    assert_eq!(stats.deallocations, 0);
}

#[test]
fn test_memory_threshold_detection() {
    let mut manager = MemoryManager::new(1);
    manager.set_thresholds(500, 800);

    let status = manager.check_memory_usage();
    assert_eq!(status, MemoryStatus::Normal);

    let stats = manager.get_memory_stats();
    assert_eq!(stats.allocations, 0);
    assert_eq!(stats.deallocations, 0);
    assert_eq!(stats.warning_permille, 500);
    assert_eq!(stats.critical_permille, 800);
}

#[test]
fn test_bounded_vec() {
    let mut vec = BoundedVec::new(3);

    vec.push(1);
    vec.push(2);
    vec.push(3);
    assert_eq!(vec.len(), 3);

    vec.push(4);
    assert_eq!(vec.len(), 3);
    assert_eq!(vec.as_slice()[0], 2);
    assert_eq!(vec.as_slice()[1], 3);
    assert_eq!(vec.as_slice()[2], 4);
    assert_eq!(vec.get(0), Some(&2));
    assert_eq!(vec.get(3), None);
    assert_eq!(vec.max_size(), 3);
    assert!(!vec.is_empty());
    vec.clear();
    assert!(vec.is_empty());
}

#[test]
fn test_bounded_vec_without_room() {
    let mut vec = BoundedVec::new(0);
    vec.push(1);
    assert!(vec.is_empty());
}

#[test]
fn test_memory_stats() {
    let mut manager = MemoryManager::new(100);
    manager.record_allocation(1024);
    manager.record_allocation(2048);
    manager.record_deallocation(1024);

    let stats = manager.get_memory_stats();
    assert_eq!(stats.allocations, 2);
    assert_eq!(stats.deallocations, 1);
    assert_eq!(stats.net_allocations, 1);
    assert_eq!(stats.current_usage_bytes, 1024);
    assert_eq!(stats.usage_permille(), 0);
    assert!(!stats.is_above_warning());
    assert!(!stats.is_critical());
}

#[test]
fn test_memory_status_follows_thresholds() {
    let start = Timestamp::from_millis(0);
    let mut manager = MemoryManager::new_at(1, start);
    for _ in 0..900 {
        manager.record_allocation(1024);
    }
    assert_eq!(
        manager.check_memory_usage_at(Timestamp::from_millis(29_999)),
        MemoryStatus::Normal
    );
    assert_eq!(manager.get_memory_stats().peak_usage_bytes, 0);
    assert_eq!(
        manager.check_memory_usage_at(Timestamp::from_millis(30_000)),
        MemoryStatus::Warning
    );
    let stats = manager.get_memory_stats();
    assert_eq!(stats.peak_usage_bytes, 900 * 1024);
    assert_eq!(stats.usage_permille(), 878);
    assert_eq!(stats.peak_usage_permille(), 878);
    assert!(stats.is_above_warning());
    assert!(!stats.is_critical());
    for _ in 0..100 {
        manager.record_allocation(1024);
    }
    assert_eq!(
        manager.check_memory_usage_at(Timestamp::from_millis(60_000)),
        MemoryStatus::Critical
    );
    for _ in 0..1000 {
        manager.record_deallocation(1024);
    }
    assert_eq!(
        manager.check_memory_usage_at(Timestamp::from_millis(90_000)),
        MemoryStatus::Normal
    );
    assert_eq!(manager.get_memory_stats().peak_usage_bytes, 1000 * 1024);
    manager.trigger_cleanup();
    assert_eq!(manager.get_memory_stats().cleanup_operations, 1);
}

#[test]
fn test_thresholds_are_put_in_order() {
    let mut manager = MemoryManager::new(1);
    manager.set_thresholds(2000, 5000);
    let stats = manager.get_memory_stats();
    assert_eq!(stats.critical_permille, 1000);
    assert_eq!(stats.warning_permille, 900);
    manager.set_thresholds(600, 50);
    let stats = manager.get_memory_stats();
    assert_eq!(stats.critical_permille, 50);
    assert_eq!(stats.warning_permille, 0);
}

#[test]
fn test_capped_arithmetic() {
    assert_eq!(capped_mul(3, 4), 12);
    assert_eq!(capped_mul(usize::MAX, 2), usize::MAX);
    assert_eq!(capped_mul(7, 0), 0);
    assert!(usage_reaches(800, 1000, 800));
    assert!(!usage_reaches(799, 1000, 800));
    assert!(!usage_reaches(0, 0, 0));
    assert!(usage_reaches(1, 0, 1000));
}

#[test]
fn benchmark_memory_bounded_vec() {
    let iterations = 100000;
    let max_size = 1000;
    let mut vec = BoundedVec::new(max_size);

    let start = Instant::now();

    for i in 0..iterations {
        vec.push(i);
    }

    let elapsed = start.elapsed();
    let ops_per_sec = iterations as f64 / elapsed.as_secs_f64();

    println!("BoundedVec operations: {:.0} ops/sec", ops_per_sec);
    assert_eq!(vec.len(), max_size);

    assert!(ops_per_sec > 500000.0, "BoundedVec too slow: {:.0} ops/sec", ops_per_sec);
}

#[test]
fn test_bounded_vec_with_tally() {
    let mut vec = BoundedVec::with_memory_manager(2, MemoryManager::new(1));
    assert!(BoundedVec::<u8>::new(1).memory_manager().is_none());
    vec.push(1u64);
    vec.push(2);
    let stats = vec.memory_manager().unwrap().get_memory_stats();
    assert_eq!(stats.allocations, 2);
    assert_eq!(stats.deallocations, 0);
    vec.push(3);
    let stats = vec.memory_manager().unwrap().get_memory_stats();
    assert_eq!(stats.allocations, 3);
    assert_eq!(stats.deallocations, 1);
    assert_eq!(stats.net_allocations, 2);
    assert_eq!(vec.as_slice(), &[2, 3]);
    vec.clear();
    let stats = vec.memory_manager().unwrap().get_memory_stats();
    assert_eq!(stats.deallocations, 2);
    assert!(vec.is_empty());
}

#[test]
fn test_bounded_vec_storage() {
    let mut vec = BoundedVec::new(4);
    for i in 0..4u32 {
        vec.push(i);
    }
    assert!(vec.capacity() >= 4);
    vec.shrink_to_fit();
    assert_eq!(vec.as_slice(), &[0, 1, 2, 3]);
    for entry in vec.as_mut_slice().iter_mut() {
        *entry += 10;
    }
    assert_eq!(vec.as_slice(), &[10, 11, 12, 13]);
    assert_eq!(vec.max_size(), 4);
}
