use st_fifo_tool::{FifoData, SensorData, SensorType, Tag, max, min};

#[test]
fn combine_bytes_high_byte_first() {
    assert_eq!(FifoData::combine_bytes_to_i16(0x01, 0x02), 0x0102);
    assert_eq!(FifoData::combine_bytes_to_i16(0x80, 0x00), i16::MIN);
    assert_eq!(FifoData::combine_bytes_to_i16(0xFF, 0xFF), -1);
    assert_eq!(FifoData::combine_bytes_to_i16(0x7F, 0xFF), i16::MAX);
}

#[test]
fn bytes_to_i16_array_builds_three_words() {
    let mut words = [0i16; 3];
    FifoData::bytes_to_i16_array(&[0x01, 0x02, 0xFF, 0xFE, 0x00, 0x2A], &mut words);
    assert_eq!(words, [0x0102, -2, 42]);
}

#[test]
fn axis_view_names_the_words() {
    let sd = SensorData { data: [10, -20, 30] };
    let a = sd.to_axis();
    assert_eq!(a.x, 10);
    assert_eq!(a.y, -20);
    assert_eq!(a.z, 30);
}

#[test]
fn temperature_view_uses_first_word() {
    let sd = SensorData { data: [-135, 7, 9] };
    assert_eq!(sd.to_temperature().temp, -135);
}

#[test]
fn step_counter_view_splits_count_and_time_bytes() {
    let sd = SensorData {
        data: [0x0102, -1, 0x7FFF],
    };
    let s = sd.to_step_counter();
    assert_eq!(s.steps, 0x0102);
    assert_eq!(s.steps_t, [0xFF, 0xFF, 0xFF, 0x7F]);
}

#[test]
fn quaternion_view_reinterprets_words_unsigned() {
    let sd = SensorData {
        data: [0x0102, -1, 0x7FFF],
    };
    let q = sd.to_quaternion();
    assert_eq!(q.qx, 0x0102);
    assert_eq!(q.qy, 0xFFFF);
    assert_eq!(q.qz, 0x7FFF);
}

#[test]
fn nack_view_uses_low_byte() {
    let sd = SensorData {
        data: [0x0102, 0, 0],
    };
    assert_eq!(sd.to_ext_sensor_nack().nack, 0x02);
}

#[test]
fn mlc_result_view_splits_result_index_and_time() {
    let sd = SensorData {
        data: [0x0102, 0x3344, -256],
    };
    let m = sd.to_mlc_result();
    assert_eq!(m.mlc_res, 0x02);
    assert_eq!(m.mlc_idx, 0x01);
    assert_eq!(m.mlc_t, [0x44, 0x33, 0x00, 0xFF]);
}

#[test]
fn mlc_filter_feature_view_reinterprets_words() {
    let sd = SensorData {
        data: [-1, 0x0203, 0],
    };
    let m = sd.to_mlc_filter_feature();
    assert_eq!(m.mlc_value, 0xFFFF);
    assert_eq!(m.mlc_id, 0x0203);
    assert_eq!(m.reserved, 0);
}

#[test]
fn tag_codes_round_trip_and_unknown_codes_are_rejected() {
    assert_eq!(Tag::from_code(0x00), Some(Tag::Empty));
    assert_eq!(Tag::from_code(0x02), Some(Tag::Xl));
    assert_eq!(Tag::from_code(0x05), Some(Tag::Odrchg));
    assert_eq!(Tag::from_code(0x1E), Some(Tag::EisGy));
    assert_eq!(Tag::from_code(0x1F), None);
    assert_eq!(Tag::from_code(0xFF), None);
}

#[test]
fn sensor_type_names() {
    assert_eq!(SensorType::Accelerometer.name(), "Accelerometer");
    assert_eq!(SensorType::Gyroscope.name(), "Gyroscope");
    assert_eq!(SensorType::NoSensor.name(), "NoSensor");
}

#[test]
fn max_and_min_pick_ends() {
    assert_eq!(max(3, 4), 4);
    assert_eq!(max(4, 3), 4);
    assert_eq!(max(-5, -7), -5);
    assert_eq!(min(3, 4), 3);
    assert_eq!(min(-5, -7), -7);
}
