use audio_devices::buffer::{InputAudioSampleBuffer, OutputAudioSampleBuffer, SILENCE};

fn bits(samples: &[f32]) -> Vec<u32> {
    samples.iter().map(|sample| sample.to_bits()).collect()
}

#[test]
fn input_view_reports_its_shape() {
    let block = bits(&[0.1, 0.2, 0.3, 0.4, 0.5, 0.6]);
    let view = InputAudioSampleBuffer::new(&block, 2, 3).unwrap();
    assert_eq!(view.channels(), 2);
    assert_eq!(view.samples(), 3);
}

#[test]
fn input_channel_is_exactly_samples_long() {
    let block = bits(&[0.1, 0.2, 0.3, 0.4, 0.5, 0.6, 0.7, 0.8]);
    let view = InputAudioSampleBuffer::new(&block, 4, 2).unwrap();
    for channel in 0..view.channels() {
        assert_eq!(view.channel(channel).len(), view.samples());
    }
}

#[test]
fn input_channel_holds_the_run_of_that_channel() {
    let block = bits(&[0.1, 0.2, 0.3, 0.4, 0.5, 0.6]);
    let view = InputAudioSampleBuffer::new(&block, 2, 3).unwrap();
    assert_eq!(view.channel(0), &bits(&[0.1, 0.2, 0.3])[..]);
    assert_eq!(view.channel(1), &bits(&[0.4, 0.5, 0.6])[..]);
    let by_three = InputAudioSampleBuffer::new(&block, 3, 2).unwrap();
    assert_eq!(by_three.channel(0), &bits(&[0.1, 0.2])[..]);
    assert_eq!(by_three.channel(1), &bits(&[0.3, 0.4])[..]);
    assert_eq!(by_three.channel(2), &bits(&[0.5, 0.6])[..]);
}

#[test]
fn input_view_needs_a_block_of_the_right_size() {
    let block = bits(&[0.0; 6]);
    assert!(InputAudioSampleBuffer::new(&block, 2, 3).is_some());
    assert!(InputAudioSampleBuffer::new(&block, 3, 2).is_some());
    assert!(InputAudioSampleBuffer::new(&block, 6, 1).is_some());
    assert!(InputAudioSampleBuffer::new(&block, 2, 2).is_none());
    assert!(InputAudioSampleBuffer::new(&block, 2, 4).is_none());
    assert!(InputAudioSampleBuffer::new(&block, 0, 3).is_none());
    assert!(InputAudioSampleBuffer::new(&block, 7, 0).is_none());
}

#[test]
fn input_view_rejects_a_shape_too_large_to_count() {
    let block = bits(&[0.0; 4]);
    assert!(InputAudioSampleBuffer::new(&block, usize::MAX, 2).is_none());
    assert!(InputAudioSampleBuffer::new(&block, usize::MAX / 2 + 3, 2).is_none());
    assert!(OutputAudioSampleBuffer::new(block, 2, usize::MAX).is_none());
}

#[test]
fn empty_views_have_no_samples() {
    let block: Vec<u32> = Vec::new();
    let no_channels = InputAudioSampleBuffer::new(&block, 0, 512).unwrap();
    assert_eq!(no_channels.channels(), 0);
    assert_eq!(no_channels.samples(), 512);
    let no_samples = InputAudioSampleBuffer::new(&block, 2, 0).unwrap();
    assert_eq!(no_samples.channels(), 2);
    assert_eq!(no_samples.samples(), 0);
    assert!(no_samples.channel(0).is_empty());
    assert!(no_samples.channel(1).is_empty());
}

#[test]
fn output_buffer_reports_its_shape() {
    let buffer = OutputAudioSampleBuffer::new(vec![SILENCE; 1024], 2, 512).unwrap();
    assert_eq!(buffer.channels(), 2);
    assert_eq!(buffer.samples(), 512);
    for channel in 0..buffer.channels() {
        assert_eq!(buffer.channel(channel).len(), buffer.samples());
    }
}

#[test]
fn output_buffer_needs_a_block_of_the_right_size() {
    assert!(OutputAudioSampleBuffer::new(vec![SILENCE; 6], 2, 3).is_some());
    assert!(OutputAudioSampleBuffer::new(vec![SILENCE; 6], 2, 2).is_none());
    assert!(OutputAudioSampleBuffer::new(vec![SILENCE; 6], 3, 3).is_none());
    assert!(OutputAudioSampleBuffer::new(Vec::new(), 0, 0).is_some());
}

#[test]
fn clear_silences_every_channel() {
    let block = bits(&[0.1, -0.2, 0.3, 0.4, f32::NAN, 0.6]);
    let mut buffer = OutputAudioSampleBuffer::new(block, 3, 2).unwrap();
    buffer.clear();
    assert_eq!(buffer.channels(), 3);
    assert_eq!(buffer.samples(), 2);
    for channel in 0..buffer.channels() {
        let run = buffer.channel(channel);
        assert_eq!(run.len(), 2);
        for sample in run {
            assert_eq!(*sample, SILENCE);
            assert_eq!(f32::from_bits(*sample), 0.0);
        }
    }
    assert_eq!(buffer.into_block(), vec![0u32; 6]);
}

#[test]
fn silence_is_positive_zero() {
    assert_eq!(SILENCE, 0.0_f32.to_bits());
}

#[test]
fn channel_mut_is_exactly_samples_long() {
    let mut buffer = OutputAudioSampleBuffer::new(vec![SILENCE; 12], 3, 4).unwrap();
    for channel in 0..3 {
        assert_eq!(buffer.channel_mut(channel).len(), 4);
    }
}

#[test]
fn channel_mut_starts_with_the_samples_of_that_channel() {
    let block = bits(&[0.1, 0.2, 0.3, 0.4, 0.5, 0.6]);
    let mut buffer = OutputAudioSampleBuffer::new(block, 3, 2).unwrap();
    assert_eq!(buffer.channel_mut(0), &bits(&[0.1, 0.2])[..]);
    assert_eq!(buffer.channel_mut(1), &bits(&[0.3, 0.4])[..]);
    assert_eq!(buffer.channel_mut(2), &bits(&[0.5, 0.6])[..]);
}

#[test]
fn writing_a_channel_changes_that_channel_only() {
    let block = bits(&[0.1, 0.2, 0.3, 0.4, 0.5, 0.6]);
    let mut buffer = OutputAudioSampleBuffer::new(block, 3, 2).unwrap();
    let run = buffer.channel_mut(1);
    run[0] = 1.0_f32.to_bits();
    run[1] = (-1.0_f32).to_bits();
    assert_eq!(buffer.channel(0), &bits(&[0.1, 0.2])[..]);
    assert_eq!(buffer.channel(1), &bits(&[1.0, -1.0])[..]);
    assert_eq!(buffer.channel(2), &bits(&[0.5, 0.6])[..]);
    assert_eq!(buffer.channels(), 3);
    assert_eq!(buffer.samples(), 2);
    assert_eq!(buffer.into_block(), bits(&[0.1, 0.2, 1.0, -1.0, 0.5, 0.6]));
}

#[test]
fn into_block_gives_the_block_back() {
    let block = bits(&[0.25, 0.5, 0.75, 1.0]);
    let buffer = OutputAudioSampleBuffer::new(block.clone(), 2, 2).unwrap();
    assert_eq!(buffer.into_block(), block);
}
