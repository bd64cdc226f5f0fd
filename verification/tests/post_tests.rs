use st_fifo_tool::{Config, DeviceType, FifoData, OutSlot, SensorData, SensorType};

fn sample(timestamp: u32, sensor_tag: SensorType, x: i16) -> OutSlot {
    OutSlot {
        timestamp,
        sensor_tag,
        sensor_data: SensorData { data: [x, 0, 0] },
    }
}

fn decoder() -> FifoData {
    FifoData::init(&Config {
        device: DeviceType::Lsm6dsv,
        bdr_xl: 0,
        bdr_gy: 0,
        bdr_vsens: 0,
    })
    .unwrap()
}

#[test]
fn sort_on_sorted_buffer_is_a_no_op() {
    // Already sorted, with duplicate timestamps: the buffer is unchanged,
    // so equal timestamps keep their relative order.
    let dec = decoder();
    let mut buf = vec![
        sample(5, SensorType::Accelerometer, 1),
        sample(7, SensorType::Gyroscope, 2),
        sample(7, SensorType::Accelerometer, 3),
    ];
    dec.sort(&mut buf, 3);
    assert_eq!(buf[0].timestamp, 5);
    assert_eq!(buf[0].sensor_data.data[0], 1);
    assert_eq!(buf[1].timestamp, 7);
    assert_eq!(buf[1].sensor_data.data[0], 2);
    assert_eq!(buf[2].timestamp, 7);
    assert_eq!(buf[2].sensor_data.data[0], 3);
}

#[test]
fn sort_orders_by_timestamp_and_is_stable() {
    let dec = decoder();
    let mut buf = vec![
        sample(10, SensorType::Accelerometer, 1),
        sample(5, SensorType::Gyroscope, 2),
        sample(10, SensorType::Gyroscope, 3),
        sample(1, SensorType::Accelerometer, 4),
    ];
    dec.sort(&mut buf, 4);
    assert_eq!(buf[0].timestamp, 1);
    assert_eq!(buf[1].timestamp, 5);
    assert_eq!(buf[2].timestamp, 10);
    assert_eq!(buf[3].timestamp, 10);
    // the two timestamp-10 samples keep their decode order
    assert_eq!(buf[2].sensor_data.data[0], 1);
    assert_eq!(buf[3].sensor_data.data[0], 3);
}

#[test]
fn sort_leaves_entries_past_the_size_alone() {
    let dec = decoder();
    let mut buf = vec![
        sample(9, SensorType::Accelerometer, 1),
        sample(2, SensorType::Gyroscope, 2),
        sample(0, SensorType::Gyroscope, 3),
    ];
    dec.sort(&mut buf, 2);
    assert_eq!(buf[0].timestamp, 2);
    assert_eq!(buf[1].timestamp, 9);
    assert_eq!(buf[2].timestamp, 0);
    assert_eq!(buf[2].sensor_data.data[0], 3);
}

#[test]
fn occurrence_counts_matching_samples() {
    let dec = decoder();
    let buf = vec![
        sample(1, SensorType::Accelerometer, 1),
        sample(2, SensorType::Gyroscope, 2),
        sample(3, SensorType::Accelerometer, 3),
        sample(4, SensorType::Temperature, 4),
    ];
    assert_eq!(
        dec.get_sensor_occurrence(&buf, 4, SensorType::Accelerometer),
        2
    );
    assert_eq!(dec.get_sensor_occurrence(&buf, 4, SensorType::Gyroscope), 1);
    assert_eq!(dec.get_sensor_occurrence(&buf, 4, SensorType::StepCounter), 0);
    // only the declared prefix is scanned
    assert_eq!(
        dec.get_sensor_occurrence(&buf, 2, SensorType::Accelerometer),
        1
    );
}

#[test]
fn extract_copies_matching_samples_in_order() {
    let dec = decoder();
    let buf = vec![
        sample(1, SensorType::Accelerometer, 1),
        sample(2, SensorType::Gyroscope, 2),
        sample(3, SensorType::Accelerometer, 3),
        sample(4, SensorType::Accelerometer, 4),
    ];
    let count = dec.get_sensor_occurrence(&buf, 4, SensorType::Accelerometer);
    assert_eq!(count, 3);
    let mut picked = vec![sample(0, SensorType::Gyroscope, 0); count as usize];
    dec.extract_sensor(&mut picked, &buf, 4, SensorType::Accelerometer);
    assert_eq!(picked[0].timestamp, 1);
    assert_eq!(picked[1].timestamp, 3);
    assert_eq!(picked[2].timestamp, 4);
    assert_eq!(picked[0].sensor_data.data[0], 1);
    assert_eq!(picked[1].sensor_data.data[0], 3);
    assert_eq!(picked[2].sensor_data.data[0], 4);
}
