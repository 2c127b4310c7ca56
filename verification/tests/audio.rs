use obs_audio::context::AudioDataContext;
use obs_audio::data::AudioData;
use obs_audio::info::AudioInfo;
use obs_audio::info::AudioRef;
use obs_audio::record::AudioDataRecord;
use obs_audio::record::MAX_AV_PLANES;

fn record_of(buffer: &AudioData) -> AudioDataRecord {
    assert!(buffer.data.len() <= MAX_AV_PLANES);
    assert!(buffer.frames <= u32::MAX as usize);
    buffer.to_raw()
}

fn plane_values(record: &AudioDataRecord, slot: usize) -> Vec<f32> {
    record.planes[slot]
        .as_ref()
        .expect("slot should be populated")
        .iter()
        .map(|w| f32::from_bits(*w))
        .collect()
}

#[test]
fn allocate_concrete_scenario() {
    let mut buffer = AudioData::new(2, 4, 1000);
    assert_eq!(buffer.data.len(), 2);
    for plane in &buffer.data {
        assert_eq!(plane.len(), 4);
        for &word in plane {
            assert_eq!(f32::from_bits(word), 0.0f32);
        }
    }
    assert_eq!(buffer.frames, 4);
    assert_eq!(buffer.timestamp, 1000);

    let written = [1.0f32, 2.0, 3.0, 4.0];
    for (slot, value) in buffer.data[0].iter_mut().zip(written.iter()) {
        *slot = value.to_bits();
    }

    let record = record_of(&buffer);
    assert_eq!(record.frames, 4);
    assert_eq!(record.timestamp, 1000);
    assert_eq!(record.planes.len(), MAX_AV_PLANES);
    assert_eq!(plane_values(&record, 0), vec![1.0f32, 2.0, 3.0, 4.0]);
    assert_eq!(plane_values(&record, 1), vec![0.0f32, 0.0, 0.0, 0.0]);
    for slot in 2..MAX_AV_PLANES {
        assert!(record.planes[slot].is_none());
    }
}

#[test]
fn allocate_zero_boundary() {
    let buffer = AudioData::new(0, 0, 123);
    assert_eq!(buffer.data.len(), 0);
    assert_eq!(buffer.frames, 0);
    assert_eq!(buffer.timestamp, 123);

    let record = record_of(&buffer);
    assert_eq!(record.planes.len(), MAX_AV_PLANES);
    for slot in &record.planes {
        assert!(slot.is_none());
    }
    assert_eq!(record.frames, 0);
    assert_eq!(record.timestamp, 123);
}

#[test]
fn allocate_max_planes() {
    let buffer = AudioData::new(MAX_AV_PLANES, 3, 9);
    assert_eq!(buffer.data.len(), MAX_AV_PLANES);
    let record = record_of(&buffer);
    assert_eq!(record.planes.len(), MAX_AV_PLANES);
    for slot in &record.planes {
        assert_eq!(slot.as_ref().map(|p| p.len()), Some(3));
    }
    assert_eq!(record.frames, 3);
}

#[test]
fn channels_reports_plane_array_length() {
    let buffer = AudioData::new(2, 4, 0);
    let view = AudioDataContext::from_raw(record_of(&buffer));
    assert_eq!(view.channels(), MAX_AV_PLANES);

    let empty = AudioData::new(0, 0, 0);
    let view = AudioDataContext::from_raw(record_of(&empty));
    assert_eq!(view.channels(), MAX_AV_PLANES);
}

#[test]
fn new_like_copies_shape_not_timestamp() {
    let mut source = AudioData::new(2, 3, 555);
    source.data[1][2] = 0.5f32.to_bits();
    let view = AudioDataContext::from_raw(record_of(&source));

    let fresh = AudioData::new_like(&view);
    assert_eq!(fresh.data.len(), view.channels());
    assert_eq!(fresh.data.len(), MAX_AV_PLANES);
    assert_eq!(fresh.frames, 3);
    assert_eq!(fresh.timestamp, 0);
    for plane in &fresh.data {
        assert_eq!(plane.len(), 3);
        for &word in plane {
            assert_eq!(word, 0u32);
        }
    }
}

#[test]
fn serialize_round_trip() {
    let mut buffer = AudioData::new(3, 2, 31415);
    buffer.data[0][0] = 0.25f32.to_bits();
    buffer.data[1][1] = (-1.5f32).to_bits();
    buffer.data[2][0] = 8.0f32.to_bits();

    let mut view = AudioDataContext::from_raw(record_of(&buffer));
    assert_eq!(view.frames(), buffer.frames);
    assert_eq!(view.channels(), MAX_AV_PLANES);
    assert_eq!(view.timestamp(), buffer.timestamp);
    for channel in 0..buffer.data.len() {
        let expected = buffer.data[channel].clone();
        let plane = view.get_channel_as_mut_slice(channel).unwrap();
        assert_eq!(plane.to_vec(), expected);
    }
    for channel in buffer.data.len()..MAX_AV_PLANES {
        assert!(view.get_channel_as_mut_slice(channel).is_none());
    }
}

#[test]
fn channel_slice_of_populated_slot_has_frame_length() {
    let buffer = AudioData::new(2, 5, 0);
    let mut view = AudioDataContext::from_raw(record_of(&buffer));
    for channel in 0..2usize {
        let plane = view.get_channel_as_mut_slice(channel);
        assert_eq!(plane.map(|p| p.len()), Some(5));
    }
}

#[test]
fn channel_slice_of_null_slot_is_absent() {
    let buffer = AudioData::new(2, 5, 0);
    let mut view = AudioDataContext::from_raw(record_of(&buffer));
    assert!(2 < view.channels());
    assert!(view.get_channel_as_mut_slice(2).is_none());
    assert!(view.get_channel_as_mut_slice(MAX_AV_PLANES - 1).is_none());
}

#[test]
fn channel_slice_out_of_range_is_absent() {
    let buffer = AudioData::new(2, 5, 0);
    let mut view = AudioDataContext::from_raw(record_of(&buffer));
    assert!(view.get_channel_as_mut_slice(MAX_AV_PLANES).is_none());
    assert!(view.get_channel_as_mut_slice(usize::MAX).is_none());
}

#[test]
fn writes_through_slice_are_kept() {
    let buffer = AudioData::new(2, 4, 0);
    let mut view = AudioDataContext::from_raw(record_of(&buffer));
    {
        let plane = view.get_channel_as_mut_slice(1).unwrap();
        plane[3] = 2.5f32.to_bits();
    }
    let plane = view.get_channel_as_mut_slice(1).unwrap();
    assert_eq!(f32::from_bits(plane[3]), 2.5f32);
    assert_eq!(plane[0], 0u32);
    let other = view.get_channel_as_mut_slice(0).unwrap();
    assert_eq!(other[3], 0u32);
}

#[test]
fn into_raw_hands_back_mutations() {
    let buffer = AudioData::new(2, 4, 10);
    let mut view = AudioDataContext::from_raw(record_of(&buffer));
    {
        let plane = view.get_channel_as_mut_slice(0).unwrap();
        plane[0] = 4.5f32.to_bits();
    }
    view.set_timestamp(77);

    let record = view.into_raw();
    assert_eq!(record.timestamp, 77);
    assert_eq!(record.frames, 4);
    assert_eq!(plane_values(&record, 0), vec![4.5f32, 0.0, 0.0, 0.0]);
    assert_eq!(plane_values(&record, 1), vec![0.0f32, 0.0, 0.0, 0.0]);
    for slot in 2..MAX_AV_PLANES {
        assert!(record.planes[slot].is_none());
    }
}

#[test]
fn set_timestamp_visible_immediately() {
    let buffer = AudioData::new(1, 1, 10);
    let mut view = AudioDataContext::from_raw(record_of(&buffer));
    assert_eq!(view.timestamp(), 10);
    view.set_timestamp(999);
    assert_eq!(view.timestamp(), 999);
    view.set_timestamp(0);
    assert_eq!(view.timestamp(), 0);
}

#[test]
fn info_idempotent() {
    let audio = AudioRef::from_raw(48000, 2);
    let first = audio.info();
    let second = audio.info();
    assert_eq!(first, second);
    assert_eq!(first, AudioInfo { sample_rate: 48000, channels: 2 });
    assert_eq!(audio.sample_rate(), 48000);
    assert_eq!(audio.sample_rate(), 48000);
    assert_eq!(audio.channels(), 2);
    assert_eq!(audio.channels(), 2);
}
