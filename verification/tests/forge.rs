use fulgor::forge::optimized_pool::{FastPoolConfig, OptimizedPool};
use fulgor::forge::pool::{MemoryPool, PoolError};
use fulgor::forge::stats::PoolStats;
use fulgor::forge::ForgeConfig;

fn efficiency(pool: &MemoryPool) -> f32 {
    if pool.high_water_mark() == 0 {
        1.0
    } else {
        pool.high_water_mark() as f32 / pool.total_size() as f32
    }
}

fn average_allocation_size(stats: &PoolStats) -> f64 {
    stats.total_bytes_allocated as f64 / stats.total_allocations as f64
}

#[test]
fn test_forge_config_defaults() {
    let config = ForgeConfig::default();
    assert_eq!(config.default_pool_size, 1024 * 1024);
    assert_eq!(config.default_alignment, 8);
    assert!(config.enable_stats);
}

#[test]
fn test_config_pool_creation() {
    let config = ForgeConfig::optimized_for_small_allocations();
    let pool = config.create_pool().unwrap();
    assert_eq!(pool.total_size(), 65536);
}

#[test]
fn test_large_data_config() {
    let config = ForgeConfig::optimized_for_large_data();
    assert_eq!(config.default_pool_size, 16 * 1024 * 1024);
    assert_eq!(config.default_alignment, 64);
    let pool = config.create_pool().unwrap();
    assert_eq!(pool.total_size(), 16 * 1024 * 1024);
}

#[test]
fn test_page_alignment_behavior() {
    let small_pool = MemoryPool::new(100).unwrap();
    assert_eq!(small_pool.total_size(), 4096);

    let medium_pool = MemoryPool::new(5000).unwrap();
    assert_eq!(medium_pool.total_size(), 8192);

    let large_pool = MemoryPool::new(8192).unwrap();
    assert_eq!(large_pool.total_size(), 8192);
}

#[test]
fn test_pool_creation() {
    let pool = MemoryPool::new(1024).unwrap();
    assert_eq!(pool.current_offset(), 0);
    assert_eq!(pool.available(), pool.total_size());
    assert!(pool.is_empty());
}

#[test]
fn test_basic_allocation() {
    let mut pool = MemoryPool::new(1024).unwrap();

    let ptr1 = pool.allocate(64, 8).unwrap();
    assert_eq!(pool.current_offset(), 64);
    assert!(!pool.is_empty());

    let ptr2 = pool.allocate(32, 8).unwrap();
    assert_eq!(pool.current_offset(), 96);

    assert_ne!(ptr1, ptr2);
}

#[test]
fn test_alignment() {
    let mut pool = MemoryPool::new(1024).unwrap();

    let ptr = pool.allocate(10, 16).unwrap();
    assert_eq!(ptr % 16, 0);
}

#[test]
fn pool_test_pool_exhaustion() {
    let mut pool = MemoryPool::new(100).unwrap();

    let actual_size = pool.total_size();

    let large_allocation = actual_size - 64;
    let _ptr1 = pool.allocate(large_allocation, 8).unwrap();

    let result = pool.allocate(128, 8);
    assert!(matches!(result, Err(PoolError::PoolExhausted { .. })));
}

#[test]
fn pool_test_reset_functionality() {
    let mut pool = MemoryPool::new(1024).unwrap();

    let _ptr1 = pool.allocate(64, 8).unwrap();
    let checkpoint = pool.current_offset();

    let _ptr2 = pool.allocate(32, 8).unwrap();
    assert_eq!(pool.current_offset(), 96);

    pool.reset_to(checkpoint).unwrap();
    assert_eq!(pool.current_offset(), checkpoint);

    pool.reset();
    assert_eq!(pool.current_offset(), 0);
    assert!(pool.is_empty());
}

#[test]
fn pool_test_invalid_alignment() {
    let mut pool = MemoryPool::new(1024).unwrap();

    let result = pool.allocate(64, 3);
    assert!(matches!(result, Err(PoolError::InvalidAlignment { .. })));
}

#[test]
fn test_stats_creation() {
    let stats = PoolStats::new();
    assert_eq!(stats.total_allocations, 0);
    assert_eq!(stats.total_bytes_allocated, 0);
    assert_eq!(stats.reset_count, 0);
}

#[test]
fn test_allocation_recording() {
    let mut stats = PoolStats::new();

    stats.record_allocation(64, 8);
    assert_eq!(stats.total_allocations, 1);
    assert_eq!(stats.total_bytes_allocated, 64);
    assert_eq!(stats.largest_allocation, 64);
    assert_eq!(stats.smallest_allocation, 64);
    assert_eq!(average_allocation_size(&stats), 64.0);

    stats.record_allocation(32, 16);
    assert_eq!(stats.total_allocations, 2);
    assert_eq!(stats.total_bytes_allocated, 96);
    assert_eq!(average_allocation_size(&stats), 48.0);
}

#[test]
fn test_alignment_histogram() {
    let mut stats = PoolStats::new();

    stats.record_allocation(64, 8);
    stats.record_allocation(32, 8);
    stats.record_allocation(16, 16);

    assert_eq!(stats.alignment_histogram[3], 2);
    assert_eq!(stats.alignment_histogram[4], 1);
    assert_eq!(stats.most_common_alignment(), 8);
}

#[test]
fn test_memory_utilization() {
    let mut stats = PoolStats::new();

    stats.record_allocation(100, 8);
    stats.record_allocation(200, 8);
    stats.record_reset(300);

    assert_eq!(stats.total_bytes_allocated, 300);
    assert_eq!(stats.peak_usage_bytes, 300);
    assert_eq!(average_allocation_size(&stats), 150.0);
    assert_eq!(stats.largest_allocation, 200);
    assert_eq!(stats.smallest_allocation, 100);
}

#[test]
fn test_most_common_alignment_ties_go_to_larger() {
    let mut stats = PoolStats::new();
    assert_eq!(stats.most_common_alignment(), 128);
    stats.record_allocation(1, 4);
    stats.record_allocation(1, 64);
    assert_eq!(stats.most_common_alignment(), 64);
    stats.record_allocation(1, 4);
    assert_eq!(stats.most_common_alignment(), 4);
    stats.record_allocation(1, 256);
    stats.record_allocation(1, 512);
    assert_eq!(stats.most_common_alignment(), 128);
    stats.reset_stats();
    assert_eq!(stats.total_allocations, 0);
    assert_eq!(stats.smallest_allocation, usize::MAX);
}

#[test]
fn test_optimized_pool_basic_allocation() {
    let mut pool = OptimizedPool::new_fast(1024).unwrap();

    let ptr1 = pool.allocate_fast(64).unwrap();
    let ptr2 = pool.allocate_fast(128).unwrap();

    assert_ne!(ptr1, ptr2);
    assert!(pool.current_usage() > 0);
}

#[test]
fn test_fast_reset() {
    let mut pool = OptimizedPool::new_fast(1024).unwrap();

    let _ptr = pool.allocate_fast(100).unwrap();
    assert!(pool.current_usage() > 0);

    pool.reset_fast();
    assert_eq!(pool.current_usage(), 0);
}

#[test]
fn optimized_pool_test_pool_exhaustion() {
    let mut pool = OptimizedPool::new_fast(64).unwrap();

    let mut allocations = 0;
    loop {
        match pool.allocate_fast(16) {
            Ok(_) => allocations += 1,
            Err(PoolError::PoolExhausted { .. }) => break,
            Err(e) => panic!("Unexpected error: {:?}", e),
        }

        if allocations > 100 {
            panic!("Pool should have been exhausted by now");
        }
    }

    assert!(allocations > 0);
}

#[test]
fn test_configurations() {
    let fastest_config = FastPoolConfig::fastest();
    let pool1 = fastest_config.create_pool().unwrap();
    assert!(!pool1.stats_enabled());

    let stats_config = FastPoolConfig::fast_with_stats();
    let pool2 = stats_config.create_pool().unwrap();
    assert!(pool2.stats_enabled());

    let simd_config = FastPoolConfig::simd_optimized(32);
    let pool3 = simd_config.create_pool().unwrap();
    assert_eq!(pool3.total_size(), 1024 * 1024);
}

#[test]
fn test_fast_pool_rounds_requests_and_counts() {
    let mut pool = FastPoolConfig::cache_optimized().create_pool().unwrap();
    assert_eq!(pool.total_size(), 256 * 1024);
    assert_eq!(pool.allocate_fast(1).unwrap(), 0);
    assert_eq!(pool.allocate_fast(65).unwrap(), 64);
    assert_eq!(pool.current_usage(), 192);
    assert_eq!(pool.allocation_count(), 2);
    assert_eq!(pool.remaining_capacity(), 256 * 1024 - 192);
    pool.reset_fast();
    assert_eq!(pool.allocation_count(), 0);

    let mut quiet = OptimizedPool::new_fast(100).unwrap();
    assert_eq!(quiet.total_size(), 104);
    quiet.allocate_fast(10).unwrap();
    assert_eq!(quiet.allocation_count(), 0);
    match quiet.allocate_fast(100) {
        Err(PoolError::PoolExhausted { requested, available }) => {
            assert_eq!(requested, 104);
            assert_eq!(available, 88);
        }
        _ => panic!("expected PoolExhausted"),
    }
}

#[test]
fn test_fast_pool_invalid_alignment() {
    match OptimizedPool::new_with_options(64, 12, true) {
        Err(PoolError::InvalidAlignment { alignment }) => assert_eq!(alignment, 12),
        _ => panic!("expected InvalidAlignment"),
    }
    let pool = OptimizedPool::new_with_options(10, 2, false).unwrap();
    assert_eq!(pool.total_size(), 16);
}

#[test]
fn test_memory_pool_creation_and_basic_usage() {
    let mut pool = MemoryPool::new(1024).unwrap();

    assert!(pool.total_size() >= 1024);
    assert_eq!(pool.current_offset(), 0);
    assert!(pool.is_empty());
    assert_eq!(efficiency(&pool), 1.0);

    let ptr = pool.allocate(64, 8).unwrap();
    assert!(ptr < pool.total_size());
    assert_eq!(pool.current_offset(), 64);
    assert!(!pool.is_empty());
}

#[test]
fn test_alignment_requirements() {
    let mut pool = MemoryPool::new(1024).unwrap();

    let test_cases = [(64, 1), (64, 2), (64, 4), (64, 8), (64, 16), (64, 32), (64, 64)];

    for (size, align) in test_cases {
        pool.reset();
        let ptr = pool.allocate(size, align).unwrap();
        assert_eq!(ptr % align, 0, "Failed alignment requirement: {} bytes", align);
    }
}

#[test]
fn integration_tests_test_invalid_alignment() {
    let mut pool = MemoryPool::new(1024).unwrap();

    let invalid_alignments = [3, 5, 6, 7, 9, 10, 15];

    for align in invalid_alignments {
        let result = pool.allocate(64, align);
        assert!(
            matches!(result, Err(PoolError::InvalidAlignment { .. })),
            "Should fail for alignment: {}",
            align
        );
    }
}

#[test]
fn integration_tests_test_reset_functionality() {
    let mut pool = MemoryPool::new(1024).unwrap();

    let _ptr1 = pool.allocate(100, 8).unwrap();
    let checkpoint = pool.current_offset();

    let _ptr2 = pool.allocate(200, 8).unwrap();
    assert_eq!(pool.current_offset(), 304);

    pool.reset_to(checkpoint).unwrap();
    assert_eq!(pool.current_offset(), checkpoint);

    pool.reset();
    assert_eq!(pool.current_offset(), 0);
    assert!(pool.is_empty());
}

#[test]
fn test_high_water_mark() {
    let mut pool = MemoryPool::new(1024).unwrap();

    let _ptr1 = pool.allocate(100, 8).unwrap();
    assert_eq!(pool.high_water_mark(), 100);

    let _ptr2 = pool.allocate(200, 8).unwrap();
    assert_eq!(pool.high_water_mark(), 304);

    pool.reset();
    let _ptr3 = pool.allocate(50, 8).unwrap();
    assert_eq!(pool.high_water_mark(), 304);
}

#[test]
fn test_high_water_mark_aligned() {
    let mut pool = MemoryPool::new(1024).unwrap();

    let _ptr1 = pool.allocate(96, 8).unwrap();
    assert_eq!(pool.high_water_mark(), 96);

    let _ptr2 = pool.allocate(200, 8).unwrap();
    assert_eq!(pool.high_water_mark(), 296);

    pool.reset();
    let _ptr3 = pool.allocate(48, 8).unwrap();
    assert_eq!(pool.high_water_mark(), 296);
}

#[test]
fn test_alignment_behavior() {
    let mut pool = MemoryPool::new(1024).unwrap();

    let _ptr1 = pool.allocate(100, 8).unwrap();
    let offset_after_first = pool.current_offset();
    assert_eq!(offset_after_first, 100);

    let _ptr2 = pool.allocate(200, 8).unwrap();
    let offset_after_second = pool.current_offset();

    assert_eq!(offset_after_second, 304);

    assert_eq!(_ptr2 % 8, 0, "Second allocation should be 8-byte aligned");
}

#[test]
fn test_statistics_tracking() {
    let mut pool = MemoryPool::new(1024).unwrap();

    pool.allocate(64, 8).unwrap();
    pool.allocate(128, 16).unwrap();
    pool.reset();

    let stats = pool.get_stats();
    assert_eq!(stats.total_allocations, 2);
    assert_eq!(stats.total_bytes_allocated, 192);
    assert_eq!(stats.reset_count, 1);
    assert_eq!(stats.largest_allocation, 128);
    assert_eq!(stats.smallest_allocation, 64);
    assert_eq!(average_allocation_size(stats), 96.0);
}

#[test]
fn test_forge_config_integration() {
    let config = ForgeConfig::optimized_for_small_allocations();
    let mut pool = config.create_pool().unwrap();

    assert!(pool.total_size() >= 64 * 1024);

    for i in 0..100 {
        let _ptr = pool.allocate(64, 8).unwrap();
        assert_eq!(pool.current_offset(), 64 * (i + 1));
    }
}

#[test]
fn test_realistic_node_workflow_simulation() {
    let mut pool = MemoryPool::new(4096).unwrap();

    let _input_data = pool.allocate(512, 8).unwrap();
    let _metadata = pool.allocate(64, 8).unwrap();
    let phase1_checkpoint = pool.current_offset();

    let _temp_buffer1 = pool.allocate(1024, 16).unwrap();
    let _temp_buffer2 = pool.allocate(256, 8).unwrap();
    let _phase2_checkpoint = pool.current_offset();

    let _output_buffer = pool.allocate(768, 8).unwrap();

    assert!(pool.current_offset() < pool.total_size());
    assert!(efficiency(&pool) > 0.5);

    pool.reset_to(phase1_checkpoint).unwrap();

    let _reused_buffer = pool.allocate(512, 8).unwrap();
    assert_eq!(pool.current_offset(), phase1_checkpoint + 512);

    let stats = pool.get_stats();
    assert!(stats.total_allocations >= 6);
    assert!(stats.reset_count >= 1);
}

#[test]
fn test_pool_errors_and_messages() {
    let mut pool = MemoryPool::new(0).unwrap();
    assert_eq!(pool.total_size(), 0);
    match pool.allocate(1, 8) {
        Err(e @ PoolError::PoolExhausted { .. }) => assert_eq!(
            e.to_display_string(),
            "Pool exhausted: requested 1 bytes, available 0 bytes"
        ),
        _ => panic!("expected PoolExhausted"),
    }
    let mut pool = MemoryPool::new(10).unwrap();
    pool.allocate(10, 1).unwrap();
    match pool.reset_to(20) {
        Err(PoolError::InvalidOffset { offset, pool_size }) => {
            assert_eq!(offset, 20);
            assert_eq!(pool_size, 10);
        }
        _ => panic!("expected InvalidOffset"),
    }
    match pool.reset_to(5000) {
        Err(e @ PoolError::InvalidOffset { .. }) => assert_eq!(
            e.to_display_string(),
            "Invalid offset: 5000 is beyond pool size 4096"
        ),
        _ => panic!("expected InvalidOffset"),
    }
    match MemoryPool::new_with_alignment(10, 24) {
        Err(e) => assert_eq!(e.to_display_string(), "Invalid alignment: 24 is not a power of 2"),
        Ok(_) => panic!("expected InvalidAlignment"),
    }
    match MemoryPool::new_with_alignment(usize::MAX / 2, 8) {
        Err(PoolError::AllocationFailed(m)) => {
            assert_eq!(m, "Invalid layout: invalid parameters to Layout::from_size_align")
        }
        _ => panic!("expected AllocationFailed"),
    }
}

#[test]
fn pool_large_alignment_beyond_pool_is_exhaustion() {
    let mut pool = MemoryPool::new(1024).unwrap();
    pool.allocate(16, 8).unwrap();
    let result = pool.allocate(8, 8192);
    assert!(matches!(
        result,
        Err(PoolError::PoolExhausted { requested: 8, available: 0 })
    ));
    assert_eq!(pool.current_offset(), 16);
    assert_eq!(pool.get_stats().total_allocations, 1);
}

#[test]
fn pool_exhaustion_names_bytes_left_above_rounded_offset() {
    let mut pool = MemoryPool::new(4096).unwrap();
    pool.allocate(4000, 8).unwrap();
    let result = pool.allocate(200, 64);
    assert!(matches!(
        result,
        Err(PoolError::PoolExhausted { requested: 200, available: 64 })
    ));
}

#[test]
fn pool_bytes_read_back_what_was_written() {
    let mut pool = MemoryPool::new(1024).unwrap();
    let first = pool.allocate(4, 8).unwrap();
    let second = pool.allocate(3, 8).unwrap();
    pool.write_bytes(first, &[1, 2, 3, 4]);
    pool.write_bytes(second, &[9, 8, 7]);
    assert_eq!(pool.bytes(first, 4), &[1, 2, 3, 4]);
    assert_eq!(pool.bytes(second, 3), &[9, 8, 7]);
    pool.write_bytes(first + 1, &[5]);
    assert_eq!(pool.bytes(first, 4), &[1, 5, 3, 4]);
}

#[test]
fn pool_whole_buffer_is_usable() {
    let mut pool = MemoryPool::new(100).unwrap();
    let size = pool.total_size();
    let offset = pool.allocate(size, 8).unwrap();
    assert_eq!(offset, 0);
    pool.write_bytes(size - 1, &[42]);
    assert_eq!(pool.bytes(size - 1, 1), &[42]);
}

#[test]
fn pool_statistics_after_allocations_and_reset() {
    let mut pool = MemoryPool::new(1024).unwrap();
    pool.allocate(10, 8).unwrap();
    pool.allocate(30, 64).unwrap();
    pool.reset_to(10).unwrap();
    let stats = pool.get_stats();
    assert_eq!(stats.total_allocations, 2);
    assert_eq!(stats.total_bytes_allocated, 40);
    assert_eq!(stats.largest_allocation, 30);
    assert_eq!(stats.smallest_allocation, 10);
    assert_eq!(stats.alignment_histogram[3], 1);
    assert_eq!(stats.alignment_histogram[6], 1);
    assert_eq!(stats.reset_count, 1);
    assert_eq!(stats.peak_usage_bytes, 10);
}

#[test]
fn fast_pool_bytes_read_back_what_was_written() {
    let mut pool = OptimizedPool::new_fast(64).unwrap();
    let offset = pool.allocate_fast(5).unwrap();
    pool.write_bytes(offset, &[10, 20, 30, 40, 50]);
    assert_eq!(pool.bytes(offset, 5), &[10, 20, 30, 40, 50]);
    let next = pool.allocate_fast(1).unwrap();
    assert_eq!(next, 8);
    pool.write_bytes(next, &[7]);
    assert_eq!(pool.bytes(offset, 5), &[10, 20, 30, 40, 50]);
    assert_eq!(pool.bytes(next, 1), &[7]);
}
