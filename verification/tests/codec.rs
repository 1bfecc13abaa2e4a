use sensor_lib_as5600::{pack12, unpack16, AS5600, BusStep, RecordedTransaction, ScriptedBus,
    SCRIPT_LENGTH_FAULT, BusFault, SENSOR_ADDR};

#[test]
fn pack12_masks_top_nibble() {
    assert_eq!(pack12(0x0000), (0x00, 0x00));
    assert_eq!(pack12(0x0FFF), (0x0F, 0xFF));
    assert_eq!(pack12(0xFFFF), (0x0F, 0xFF));
    assert_eq!(pack12(0xABCD), (0x0B, 0xCD));
    assert_eq!(pack12(0xF000), (0x00, 0x00));
}

#[test]
fn unpack16_reassembles_big_endian() {
    assert_eq!(unpack16(0x0F, 0xFF), 0x0FFF);
    assert_eq!(unpack16(0x00, 0x00), 0x0000);
    assert_eq!(unpack16(0x12, 0x34), 0x1234);
    // No masking happens on the read path.
    assert_eq!(unpack16(0xFF, 0xFF), 0xFFFF);
}

#[test]
fn pack12_roundtrip_in_range() {
    for v in [0u16, 1, 2, 0x07FF, 0x0800, 4094, 4095] {
        let (hi, lo) = pack12(v);
        assert_eq!(unpack16(hi, lo), v);
    }
}

#[test]
fn pack12_high_byte_always_masked() {
    for v in [0u16, 0x1000, 0x8123, 0xFFFF, 0x4095] {
        let (hi, _) = pack12(v);
        assert_eq!(hi, ((v >> 8) & 0x0F) as u8);
        assert!(hi < 0x10);
    }
}

#[test]
fn short_scripted_response_is_a_fault() {
    // A write_read whose scripted response has the wrong number of bytes
    // fails with the length fault, and the log records an empty response.
    let script = vec![BusStep::Respond(vec![0x0F])];
    let i2c = ScriptedBus::new(script);
    let mut sensor = AS5600::new(i2c, SENSOR_ADDR);

    let err = sensor.read_12bits(0x0C).unwrap_err();
    assert_eq!(err, BusFault { code: SCRIPT_LENGTH_FAULT });
    assert_eq!(
        sensor.i2c.history,
        vec![RecordedTransaction::WriteRead { addr: SENSOR_ADDR, out: vec![0x0C], read: vec![] }]
    );
}

#[test]
fn write_12bits_error_passes_through() {
    let script = vec![BusStep::Fail(0x42)];
    let i2c = ScriptedBus::new(script);
    let mut sensor = AS5600::new(i2c, SENSOR_ADDR);

    let err = sensor.write_12bits(0x01, 0x0123).unwrap_err();
    assert_eq!(err, BusFault { code: 0x42 });
    // The attempted write is still recorded.
    assert_eq!(
        sensor.i2c.history,
        vec![RecordedTransaction::Write { addr: SENSOR_ADDR, bytes: vec![0x01, 0x01, 0x23] }]
    );
}

#[test]
fn config_error_on_readback_keeps_the_write() {
    // The write succeeds, the read-back fails: the error surfaces and the
    // device may be left with the write applied.
    let script = vec![BusStep::Respond(vec![]), BusStep::Fail(0x07)];
    let i2c = ScriptedBus::new(script);
    let mut sensor = AS5600::new(i2c, SENSOR_ADDR);

    let err = sensor.config_start_position(100).unwrap_err();
    assert_eq!(err, BusFault { code: 0x07 });
    assert_eq!(sensor.i2c.history.len(), 2);
}
