use usbflash::engine::{CloneEngine, CloneError, FlashEngine, FlashError, FlashStep};

/// Drives a flash engine over an image of `file_size` bytes with a scratch
/// buffer of `buffer_sectors`, simulating exact file reads, and returns the
/// chunk starting sectors and the progress reports in order.
fn drive_flash(
    engine: &mut FlashEngine,
    file_size: usize,
    buffer_sectors: usize,
) -> (Vec<u32>, Vec<(u32, u32)>) {
    let mut starts = Vec::new();
    let mut progress = Vec::new();
    let mut remaining = file_size;
    loop {
        let bytes_read = remaining.min(buffer_sectors * 512);
        remaining -= bytes_read;
        match engine.step(bytes_read) {
            FlashStep::WriteChunk { start_sector, progress_done, progress_total } => {
                starts.push(start_sector);
                progress.push((progress_done, progress_total));
            }
            FlashStep::Done => break,
        }
    }
    (starts, progress)
}

#[test]
fn flash_ten_sector_image_in_two_sector_chunks() {
    // A 5120-byte image with buffer_size 2: exactly 5 write chunks at
    // sectors 0,2,4,6,8 and 5 progress reports (0,10)..(8,10).
    let mut engine = FlashEngine::new(5120, None, Some(10)).unwrap();
    assert_eq!(engine.output_size, 10);
    let (starts, progress) = drive_flash(&mut engine, 5120, 2);
    assert_eq!(starts, vec![0, 2, 4, 6, 8]);
    assert_eq!(
        progress,
        vec![(0, 10), (2, 10), (4, 10), (6, 10), (8, 10)]
    );
    assert!(engine.finished);
    assert_eq!(engine.current_sector, 10);
}

#[test]
fn flash_rejects_unaligned_image() {
    assert_eq!(
        FlashEngine::new(5121, None, None),
        Err(FlashError::ImageNotSectorAligned)
    );
    assert_eq!(
        FlashEngine::new(511, None, Some(100)),
        Err(FlashError::ImageNotSectorAligned)
    );
}

#[test]
fn flash_rejects_count_beyond_image() {
    assert_eq!(
        FlashEngine::new(5120, Some(11), None),
        Err(FlashError::CountExceedsImage)
    );
    assert!(FlashEngine::new(5120, Some(10), None).is_ok());
}

#[test]
fn flash_rejects_image_beyond_capacity() {
    assert_eq!(
        FlashEngine::new(5120, None, Some(9)),
        Err(FlashError::ImageExceedsCapacity)
    );
    assert!(FlashEngine::new(5120, None, Some(10)).is_ok());
}

#[test]
fn flash_tolerates_unknown_capacity() {
    // A failed capacity query is best-effort: the flash still proceeds.
    let engine = FlashEngine::new(5120, None, None).unwrap();
    assert_eq!(engine.output_size, 10);
}

#[test]
fn flash_validation_order_alignment_first() {
    // An unaligned image is reported as such even when it also exceeds the
    // device's capacity.
    assert_eq!(
        FlashEngine::new(5121, Some(99), Some(1)),
        Err(FlashError::ImageNotSectorAligned)
    );
}

#[test]
fn flash_preferred_count_caps_output_size() {
    let mut engine = FlashEngine::new(5120, Some(4), None).unwrap();
    assert_eq!(engine.output_size, 4);
    // The cursor stops only once it runs past the output size, so the
    // chunk straddling the boundary is still written.
    let (starts, progress) = drive_flash(&mut engine, 5120, 2);
    assert_eq!(starts, vec![0, 2, 4]);
    assert_eq!(progress, vec![(0, 4), (2, 4), (4, 4)]);
}

#[test]
fn flash_empty_image_writes_nothing() {
    let mut engine = FlashEngine::new(0, None, None).unwrap();
    assert_eq!(engine.output_size, 0);
    let (starts, progress) = drive_flash(&mut engine, 0, 2);
    assert!(starts.is_empty());
    assert!(progress.is_empty());
}

#[test]
fn clone_ten_sectors_in_four_sector_chunks() {
    // Capacity 10, buffer_size 4: read chunks at sectors 0,4,8; the final
    // progress lands on the true last sector even though the last chunk
    // returns only 2 of the 4 requested sectors.
    let mut engine = CloneEngine::new(10, 4, None).unwrap();
    assert_eq!(engine.output_size, 10);
    let mut starts = Vec::new();
    let mut progress = Vec::new();
    let mut remaining_sectors = 10usize;
    while !engine.finished() {
        let (start, count) = engine.next_chunk();
        assert_eq!(count, 4);
        starts.push(start);
        let returned = remaining_sectors.min(count as usize) * 512;
        remaining_sectors -= returned / 512;
        progress.push(engine.complete_chunk(returned));
    }
    assert_eq!(starts, vec![0, 4, 8]);
    assert_eq!(progress, vec![(0, 10), (4, 10), (8, 10)]);
    assert_eq!(engine.final_progress(), (10, 10));
}

#[test]
fn clone_exact_multiple_of_buffer() {
    let mut engine = CloneEngine::new(8, 4, None).unwrap();
    let mut starts = Vec::new();
    while !engine.finished() {
        let (start, count) = engine.next_chunk();
        starts.push(start);
        engine.complete_chunk(count as usize * 512);
    }
    assert_eq!(starts, vec![0, 4]);
    assert_eq!(engine.final_progress(), (8, 8));
}

#[test]
fn clone_rejects_count_beyond_capacity() {
    assert_eq!(
        CloneEngine::new(10, 4, Some(11)),
        Err(CloneError::CountExceedsCapacity)
    );
    assert!(CloneEngine::new(10, 4, Some(10)).is_ok());
}

#[test]
fn clone_preferred_count_caps_output_size() {
    let mut engine = CloneEngine::new(100, 4, Some(6)).unwrap();
    assert_eq!(engine.output_size, 6);
    let mut starts = Vec::new();
    while !engine.finished() {
        let (start, count) = engine.next_chunk();
        starts.push(start);
        engine.complete_chunk(count as usize * 512);
    }
    assert_eq!(starts, vec![0, 4]);
    assert_eq!(engine.final_progress(), (8, 6));
}

#[test]
fn clone_zero_capacity_reads_nothing() {
    let engine = CloneEngine::new(0, 4, None).unwrap();
    assert!(engine.finished());
    assert_eq!(engine.final_progress(), (0, 0));
}
