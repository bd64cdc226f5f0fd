use st_fifo_tool::{
    Config, DeviceType, FifoData, OutSlot, RawSlot, SensorData, SensorType, Status,
};

fn slot(header: u8, payload: [u8; 6]) -> RawSlot {
    RawSlot {
        fifo_data_out: [
            header, payload[0], payload[1], payload[2], payload[3], payload[4], payload[5],
        ],
    }
}

fn header(tag: u8, counter: u8) -> u8 {
    (tag << 3) | (counter << 1)
}

fn header_legacy(tag: u8, counter: u8) -> u8 {
    let h = (tag << 3) | (counter << 1);
    if h.count_ones() % 2 == 1 { h | 1 } else { h }
}

fn out_buffer(n: usize) -> Vec<OutSlot> {
    vec![
        OutSlot {
            timestamp: 0,
            sensor_tag: SensorType::Gyroscope,
            sensor_data: SensorData { data: [0; 3] },
        };
        n
    ]
}

fn decoder_v1(xl_mhz: i32, gy_mhz: i32, vs_mhz: i32) -> FifoData {
    FifoData::init(&Config {
        device: DeviceType::Lsm6dsv,
        bdr_xl: xl_mhz,
        bdr_gy: gy_mhz,
        bdr_vsens: vs_mhz,
    })
    .unwrap()
}

fn decoder_v0(xl_mhz: i32, gy_mhz: i32, vs_mhz: i32) -> FifoData {
    FifoData::init(&Config {
        device: DeviceType::Lsm6dso,
        bdr_xl: xl_mhz,
        bdr_gy: gy_mhz,
        bdr_vsens: vs_mhz,
    })
    .unwrap()
}

#[test]
fn init_rejects_negative_rate() {
    let r = FifoData::init(&Config {
        device: DeviceType::Lsm6dsv,
        bdr_xl: -1,
        bdr_gy: 0,
        bdr_vsens: 0,
    });
    match r {
        Err(e) => assert_eq!(e, Status::InvalidConfig),
        Ok(_) => panic!("negative rate must be rejected"),
    }
}

#[test]
fn uncompressed_accel_slot_end_to_end() {
    // One accelerometer slot (tag 0x02, counter 0) with a zero minimum
    // interval yields one sample at timestamp 0 whose axes are the three
    // high-byte-first payload words.
    let mut dec = decoder_v1(0, 0, 0);
    let raw = [slot(header(0x02, 0), [0x01, 0x02, 0x03, 0x04, 0x05, 0x06])];
    let mut out = out_buffer(4);
    let mut n: u16 = 0;
    let st = dec.decode(&mut out, &raw, &mut n, 1);
    assert_eq!(st, Status::Success);
    assert_eq!(n, 1);
    assert_eq!(out[0].timestamp, 0);
    assert_eq!(out[0].sensor_tag, SensorType::Accelerometer);
    assert_eq!(
        out[0].sensor_data.data,
        [(0x01 << 8) | 0x02, (0x03 << 8) | 0x04, (0x05 << 8) | 0x06]
    );
}

#[test]
fn counter_wraparound_advances_by_one_interval() {
    // Accelerometer rate 1.875 Hz on the newer generation: the minimum
    // interval is 24576 units.  Counters 0 -> 1 -> 2 -> 3 -> 0 advance the
    // clock by one interval each, the wrap included: never backwards.
    let mut dec = decoder_v1(1875, 0, 0);
    let raw = [
        slot(header(0x00, 1), [0; 6]),
        slot(header(0x00, 2), [0; 6]),
        slot(header(0x00, 3), [0; 6]),
        slot(header(0x02, 0), [0; 6]),
    ];
    let mut out = out_buffer(4);
    let mut n: u16 = 0;
    let st = dec.decode(&mut out, &raw, &mut n, 4);
    assert_eq!(st, Status::Success);
    assert_eq!(n, 1);
    assert_eq!(out[0].timestamp, 4 * 24576);
}

#[test]
fn rate_change_emits_nothing_and_updates_intervals() {
    // Starting from all-zero rates (minimum interval 0), a rate-change
    // record selecting accelerometer table entry 1 (1.875 Hz, interval
    // 24576) emits no sample; the very next counter step then advances
    // the clock by the new minimum interval.
    let mut dec = decoder_v1(0, 0, 0);
    let mut odr = [0u8; 6];
    odr[5] = 0x01; // accelerometer nibble 1, gyroscope nibble 0
    let raw = [
        slot(header(0x05, 0), odr),
        slot(header(0x02, 1), [0; 6]),
    ];
    let mut out = out_buffer(4);
    let mut n: u16 = 0;
    let st = dec.decode(&mut out, &raw, &mut n, 2);
    assert_eq!(st, Status::Success);
    assert_eq!(n, 1);
    assert_eq!(out[0].sensor_tag, SensorType::Accelerometer);
    assert_eq!(out[0].timestamp, 24576);
}

#[test]
fn rate_change_backdates_next_t1_sample_with_old_interval() {
    // 7680 Hz accelerometer (interval 6).  After a real sample at clock 0
    // and a rate change to 1.875 Hz, the next T-minus-1 record is
    // back-dated from the last sample timestamp using the interval in
    // effect *before* the change; a second T-minus-1 record shows the
    // flag is deliberately left standing by that branch.
    let mut dec = decoder_v1(7_680_000, 0, 0);
    let mut odr = [0u8; 6];
    odr[5] = 0x01;
    let raw = [
        slot(header(0x02, 0), [0; 6]),
        slot(header(0x05, 0), odr),
        slot(header(0x07, 0), [0; 6]),
        slot(header(0x07, 0), [0; 6]),
    ];
    let mut out = out_buffer(8);
    let mut n: u16 = 0;
    let st = dec.decode(&mut out, &raw, &mut n, 4);
    assert_eq!(st, Status::Success);
    assert_eq!(n, 3);
    assert_eq!(out[0].timestamp, 0);
    assert_eq!(out[1].timestamp, 6); // last(0) + old interval 6
    assert_eq!(out[2].timestamp, 12); // flag still set: last(6) + 6
}

#[test]
fn step_counter_uses_embedded_timestamp() {
    let mut dec = decoder_v1(0, 0, 0);
    let raw = [slot(
        header(0x12, 0),
        [0x11, 0x22, 0x78, 0x56, 0x34, 0x12],
    )];
    let mut out = out_buffer(2);
    let mut n: u16 = 0;
    let st = dec.decode(&mut out, &raw, &mut n, 1);
    assert_eq!(st, Status::Success);
    assert_eq!(n, 1);
    assert_eq!(out[0].sensor_tag, SensorType::StepCounter);
    assert_eq!(out[0].timestamp, 0x12345678);
}

#[test]
fn mlc_result_uses_embedded_timestamp() {
    let mut dec = decoder_v1(0, 0, 0);
    let raw = [slot(
        header(0x1A, 0),
        [0xAA, 0xBB, 0x04, 0x03, 0x02, 0x01],
    )];
    let mut out = out_buffer(2);
    let mut n: u16 = 0;
    let st = dec.decode(&mut out, &raw, &mut n, 1);
    assert_eq!(st, Status::Success);
    assert_eq!(n, 1);
    assert_eq!(out[0].sensor_tag, SensorType::MlcResult);
    assert_eq!(out[0].timestamp, 0x01020304);
}

#[test]
fn explicit_timestamp_record_overwrites_clock() {
    let mut dec = decoder_v1(0, 0, 0);
    let raw = [
        slot(header(0x04, 0), [0x78, 0x56, 0x34, 0x12, 0x00, 0x00]),
        slot(header(0x02, 0), [0; 6]),
    ];
    let mut out = out_buffer(2);
    let mut n: u16 = 0;
    let st = dec.decode(&mut out, &raw, &mut n, 2);
    assert_eq!(st, Status::Success);
    assert_eq!(n, 1);
    assert_eq!(out[0].timestamp, 0x12345678);
}

#[test]
fn sample_counts_per_compression_kind() {
    // Empty, rate-change and explicit-timestamp slots yield 0 samples;
    // uncompressed kinds yield 1; Delta-2-sample yields 2; Delta-3-sample
    // yields 3.
    let cases: [(u8, u16); 8] = [
        (0x00, 0), // empty
        (0x05, 0), // rate change
        (0x04, 0), // explicit timestamp
        (0x02, 1), // uncompressed now
        (0x07, 1), // uncompressed t-1
        (0x06, 1), // uncompressed t-2
        (0x08, 2), // delta 2-sample
        (0x09, 3), // delta 3-sample
    ];
    for (tag, expected) in cases {
        let mut dec = decoder_v1(0, 0, 0);
        let raw = [slot(header(tag, 0), [0; 6])];
        let mut out = out_buffer(4);
        let mut n: u16 = 0;
        let st = dec.decode(&mut out, &raw, &mut n, 1);
        assert_eq!(st, Status::Success, "tag {tag:#x}");
        assert_eq!(n, expected, "tag {tag:#x}");
    }
}

#[test]
fn delta_2x_chains_signed_byte_deltas() {
    // 7680 Hz accelerometer: interval 6.  A real sample seeds the delta
    // base; the Delta-2-sample slot then applies (1,2,3) and, chained on
    // that, (-1,-128,127).  Its first sample is dated two intervals
    // before the clock (wrapping below zero), the second one interval.
    let mut dec = decoder_v1(7_680_000, 0, 0);
    let raw = [
        slot(header(0x02, 0), [0x01, 0x02, 0x03, 0x04, 0x05, 0x06]),
        slot(header(0x08, 1), [0x01, 0x02, 0x03, 0xFF, 0x80, 0x7F]),
    ];
    let mut out = out_buffer(8);
    let mut n: u16 = 0;
    let st = dec.decode(&mut out, &raw, &mut n, 2);
    assert_eq!(st, Status::Success);
    assert_eq!(n, 3);
    assert_eq!(out[0].sensor_data.data, [0x0102, 0x0304, 0x0506]);
    // clock after counter step: 6
    assert_eq!(out[1].timestamp, 6u32.wrapping_sub(12));
    assert_eq!(out[1].sensor_data.data, [0x0103, 0x0306, 0x0509]);
    assert_eq!(out[2].timestamp, 0);
    assert_eq!(out[2].sensor_data.data, [0x0102, 0x0286, 0x0588]);
}

#[test]
fn delta_3x_unpacks_five_bit_fields() {
    // Each 16-bit word 0x0421 packs three +1 deltas; 0x7FFF packs three
    // -1 deltas.  Three words give three chained samples.
    let mut dec = decoder_v1(7_680_000, 0, 0);
    let raw = [
        slot(header(0x02, 0), [0x00, 0x0A, 0x00, 0x14, 0x00, 0x1E]),
        slot(header(0x09, 1), [0x21, 0x04, 0xFF, 0x7F, 0x21, 0x04]),
    ];
    let mut out = out_buffer(8);
    let mut n: u16 = 0;
    let st = dec.decode(&mut out, &raw, &mut n, 2);
    assert_eq!(st, Status::Success);
    assert_eq!(n, 4);
    assert_eq!(out[0].sensor_data.data, [10, 20, 30]);
    assert_eq!(out[1].sensor_data.data, [11, 21, 31]);
    assert_eq!(out[2].sensor_data.data, [10, 20, 30]);
    assert_eq!(out[3].sensor_data.data, [11, 21, 31]);
    // timestamps: clock is 6 after the counter step
    assert_eq!(out[1].timestamp, 6u32.wrapping_sub(12));
    assert_eq!(out[2].timestamp, 6u32.wrapping_sub(6));
    assert_eq!(out[3].timestamp, 6);
}

#[test]
fn gyro_slot_updates_gyro_channel() {
    let mut dec = decoder_v1(0, 7_680_000, 0);
    let raw = [
        slot(header(0x01, 0), [0x00, 0x64, 0x00, 0xC8, 0x01, 0x2C]),
        slot(header(0x0C, 1), [0x01, 0x01, 0x01, 0x01, 0x01, 0x01]),
    ];
    let mut out = out_buffer(8);
    let mut n: u16 = 0;
    let st = dec.decode(&mut out, &raw, &mut n, 2);
    assert_eq!(st, Status::Success);
    assert_eq!(n, 3);
    assert_eq!(out[0].sensor_tag, SensorType::Gyroscope);
    assert_eq!(out[0].sensor_data.data, [100, 200, 300]);
    assert_eq!(out[1].sensor_data.data, [101, 201, 301]);
    assert_eq!(out[2].sensor_data.data, [102, 202, 302]);
}

#[test]
fn odd_parity_header_corrupts_legacy_call() {
    // 0b00000001 has one set bit: odd parity fails the legacy check.
    let mut dec = decoder_v0(0, 0, 0);
    let raw = [slot(0x01, [0; 6])];
    let mut out = out_buffer(2);
    let mut n: u16 = 0;
    let st = dec.decode(&mut out, &raw, &mut n, 1);
    assert_eq!(st, Status::CorruptHeader);
    assert_eq!(n, 0);
}

#[test]
fn parity_is_checked_before_tag_validity() {
    // 0xFE carries tag 0x1F (invalid on the legacy generation) and has
    // odd parity: the parity error wins.
    let mut dec = decoder_v0(0, 0, 0);
    let raw = [slot(0xFE, [0; 6])];
    let mut out = out_buffer(2);
    let mut n: u16 = 0;
    let st = dec.decode(&mut out, &raw, &mut n, 1);
    assert_eq!(st, Status::CorruptHeader);
    assert_eq!(n, 0);
}

#[test]
fn tag_above_legacy_limit_is_invalid() {
    // Tag 0x1A exceeds the legacy limit 0x19; 0xD1 has even parity so the
    // tag check is reached.
    let mut dec = decoder_v0(0, 0, 0);
    let raw = [slot(0xD1, [0; 6])];
    let mut out = out_buffer(2);
    let mut n: u16 = 0;
    let st = dec.decode(&mut out, &raw, &mut n, 1);
    assert_eq!(st, Status::InvalidTag);
    assert_eq!(n, 0);
}

#[test]
fn tag_above_legacy_limit_is_valid_on_newer_generation() {
    let mut dec = decoder_v1(0, 0, 0);
    let raw = [slot(header(0x1A, 0), [0; 6])];
    let mut out = out_buffer(2);
    let mut n: u16 = 0;
    let st = dec.decode(&mut out, &raw, &mut n, 1);
    assert_eq!(st, Status::Success);
    assert_eq!(n, 1);
}

#[test]
fn even_parity_legacy_header_is_accepted() {
    let mut dec = decoder_v0(0, 0, 0);
    let h = header_legacy(0x01, 0); // 0x08 has odd parity, so bit 0 is set
    assert_eq!(h, 0x09);
    let raw = [slot(h, [0x00, 0x01, 0x00, 0x02, 0x00, 0x03])];
    let mut out = out_buffer(2);
    let mut n: u16 = 0;
    let st = dec.decode(&mut out, &raw, &mut n, 1);
    assert_eq!(st, Status::Success);
    assert_eq!(n, 1);
    assert_eq!(out[0].sensor_tag, SensorType::Gyroscope);
    assert_eq!(out[0].sensor_data.data, [1, 2, 3]);
}

#[test]
fn undersized_output_buffer_is_a_capacity_error() {
    let mut dec = decoder_v1(0, 0, 0);
    let raw = [
        slot(header(0x02, 0), [0; 6]),
        slot(header(0x02, 0), [0; 6]),
    ];
    let mut out = out_buffer(1);
    let mut n: u16 = 0;
    let st = dec.decode(&mut out, &raw, &mut n, 2);
    assert_eq!(st, Status::CapacityExceeded);
    assert_eq!(n, 1);

    let mut out_empty: Vec<OutSlot> = Vec::new();
    let mut dec2 = decoder_v1(0, 0, 0);
    let mut n2: u16 = 0;
    let st2 = dec2.decode(&mut out_empty, &raw, &mut n2, 1);
    assert_eq!(st2, Status::CapacityExceeded);
    assert_eq!(n2, 0);
}

#[test]
fn state_persists_across_decode_calls() {
    // The clock and the rolling counter survive between calls for the
    // same stream: a second call continues where the first ended.
    let mut dec = decoder_v1(1875, 0, 0);
    let raw1 = [slot(header(0x02, 1), [0; 6])];
    let raw2 = [slot(header(0x02, 2), [0; 6])];
    let mut out = out_buffer(2);
    let mut n: u16 = 0;
    assert_eq!(dec.decode(&mut out, &raw1, &mut n, 1), Status::Success);
    assert_eq!(out[0].timestamp, 24576);
    assert_eq!(dec.decode(&mut out, &raw2, &mut n, 1), Status::Success);
    assert_eq!(out[0].timestamp, 2 * 24576);
}

#[test]
fn t2_sample_is_backdated_two_intervals() {
    // 7680 Hz accelerometer (interval 6).  Three counter steps put the
    // clock at 18; a T-minus-2 record without a pending rate change is
    // dated two intervals earlier.
    let mut dec = decoder_v1(7_680_000, 0, 0);
    let raw = [
        slot(header(0x02, 0), [0; 6]),
        slot(header(0x00, 1), [0; 6]),
        slot(header(0x00, 2), [0; 6]),
        slot(header(0x06, 3), [0; 6]),
    ];
    let mut out = out_buffer(4);
    let mut n: u16 = 0;
    let st = dec.decode(&mut out, &raw, &mut n, 4);
    assert_eq!(st, Status::Success);
    assert_eq!(n, 2);
    assert_eq!(out[0].timestamp, 0);
    assert_eq!(out[1].timestamp, 18 - 12);
}

#[test]
fn legacy_limit_tag_itself_is_accepted() {
    // Tag 0x19 is the last valid one on the legacy generation; 0xC8 has
    // odd parity, so the parity bit is set.
    let mut dec = decoder_v0(0, 0, 0);
    let h = header_legacy(0x19, 0);
    assert_eq!(h, 0xC9);
    let raw = [slot(h, [0x00, 0x07, 0, 0, 0, 0])];
    let mut out = out_buffer(2);
    let mut n: u16 = 0;
    let st = dec.decode(&mut out, &raw, &mut n, 1);
    assert_eq!(st, Status::Success);
    assert_eq!(n, 1);
    assert_eq!(out[0].sensor_tag, SensorType::ExtSensorNack);
    assert_eq!(out[0].sensor_data.to_ext_sensor_nack().nack, 0x07);
}
