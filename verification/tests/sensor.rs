use sensor_lib_as5600::{
    BurnCommands, BusFault, BusStep, ConfigRegisters, I2cBus, OutputRegisters,
    RecordedTransaction, ScriptedBus, StatusRegisters, AS5600, SENSOR_ADDR,
};

//Check that the testing macros are functional.
#[test]
fn lib_self_test() {
    assert!(true);
}

//Check that the scripted transport records what it is asked to do.
#[test]
fn mocking_i2c() {
    let script = vec![BusStep::Respond(vec![]), BusStep::Respond(vec![3, 4])];
    let mut i2c = ScriptedBus::new(script);

    i2c.write(SENSOR_ADDR, vec![1, 2]).unwrap();
    let buf = i2c.write_read(SENSOR_ADDR, vec![], 2).unwrap();

    assert_eq!(buf, vec![3, 4]);
    assert_eq!(
        i2c.history,
        vec![
            RecordedTransaction::Write { addr: SENSOR_ADDR, bytes: vec![1, 2] },
            RecordedTransaction::WriteRead { addr: SENSOR_ADDR, out: vec![], read: vec![3, 4] },
        ]
    );
    assert!(i2c.script_done());
}

#[test]
fn i2c_writes_u16() {
    let script = vec![BusStep::Respond(vec![]), BusStep::Respond(vec![])];
    let i2c = ScriptedBus::new(script);
    let mut sensor = AS5600::new(i2c, SENSOR_ADDR);

    let result = sensor.write_12bits(0x05, 0xFFFF);
    assert!(result.is_ok());

    let result = sensor.write_12bits(0x06, 0xAAAA);
    assert!(result.is_ok());

    assert_eq!(
        sensor.i2c.history,
        vec![
            RecordedTransaction::Write { addr: SENSOR_ADDR, bytes: vec![0x05, 0x0F, 0xFF] },
            RecordedTransaction::Write { addr: SENSOR_ADDR, bytes: vec![0x06, 0x0A, 0xAA] },
        ]
    );
    assert!(sensor.i2c.script_done());
}

#[test]
fn i2c_read_12bits() {
    let script = vec![
        BusStep::Respond(vec![0x0F, 0xFF]),
        BusStep::Respond(vec![0x00, 0x00]),
    ];
    let i2c = ScriptedBus::new(script);
    let mut sensor = AS5600::new(i2c, SENSOR_ADDR);

    let result = sensor.read_12bits(0x05);
    assert_eq!(result.unwrap(), 0x0FFF);

    let result = sensor.read_12bits(0x06);
    assert_eq!(result.unwrap(), 0x0000);

    assert_eq!(
        sensor.i2c.history,
        vec![
            RecordedTransaction::WriteRead {
                addr: SENSOR_ADDR,
                out: vec![0x05],
                read: vec![0x0F, 0xFF],
            },
            RecordedTransaction::WriteRead {
                addr: SENSOR_ADDR,
                out: vec![0x06],
                read: vec![0x00, 0x00],
            },
        ]
    );
    assert!(sensor.i2c.script_done());
}

#[test]
fn get_status() {
    let script = vec![BusStep::Respond(vec![1 << 5])];
    let i2c = ScriptedBus::new(script);
    let mut sensor = AS5600::new(i2c, SENSOR_ADDR);

    let status = sensor.read_status();
    assert!(status.is_ok());

    let status = status.unwrap();
    assert!(status.is_magnet_detected());

    // Exactly one write_read to the status register with a one-byte response.
    assert_eq!(
        sensor.i2c.history,
        vec![RecordedTransaction::WriteRead {
            addr: SENSOR_ADDR,
            out: vec![StatusRegisters::Status.addr()],
            read: vec![1 << 5],
        }]
    );
    assert!(sensor.i2c.script_done());
}

#[test]
fn read_status_bus_error() {
    let script = vec![BusStep::Fail(0x01)];
    let i2c = ScriptedBus::new(script);
    let mut sensor = AS5600::new(i2c, SENSOR_ADDR);

    let err = sensor.read_status().unwrap_err();
    assert_eq!(err, BusFault { code: 0x01 });

    assert!(sensor.i2c.script_done());
}

#[test]
fn test_configure_start_position() {
    let script = vec![BusStep::Respond(vec![]), BusStep::Respond(vec![0x00, 0x00])];
    let i2c = ScriptedBus::new(script);
    let mut sensor = AS5600::new(i2c, SENSOR_ADDR);

    let start: u16 = 0;
    let result = sensor.config_start_position(start);
    assert_eq!(result.unwrap(), 0);

    assert_eq!(
        sensor.i2c.history,
        vec![
            RecordedTransaction::Write {
                addr: SENSOR_ADDR,
                bytes: vec![ConfigRegisters::ZPosHi.addr(), 0x00, 0x00],
            },
            RecordedTransaction::WriteRead {
                addr: SENSOR_ADDR,
                out: vec![ConfigRegisters::ZPosHi.addr()],
                read: vec![0x00, 0x00],
            },
        ]
    );
    assert!(sensor.i2c.script_done());
}

#[test]
fn test_configure_start_max_value() {
    let script = vec![BusStep::Respond(vec![]), BusStep::Respond(vec![0x0F, 0xFF])];
    let i2c = ScriptedBus::new(script);
    let mut sensor = AS5600::new(i2c, SENSOR_ADDR);

    let start: u16 = 4095;
    let result = sensor.config_start_position(start);
    assert_eq!(result.unwrap(), 4095);

    assert_eq!(
        sensor.i2c.history,
        vec![
            RecordedTransaction::Write {
                addr: SENSOR_ADDR,
                bytes: vec![ConfigRegisters::ZPosHi.addr(), 0x0F, 0xFF],
            },
            RecordedTransaction::WriteRead {
                addr: SENSOR_ADDR,
                out: vec![ConfigRegisters::ZPosHi.addr()],
                read: vec![0x0F, 0xFF],
            },
        ]
    );
    assert!(sensor.i2c.script_done());
}

#[test]
fn test_config_stop_position() {
    let script = vec![BusStep::Respond(vec![]), BusStep::Respond(vec![0x0F, 0xFF])];
    let i2c = ScriptedBus::new(script);
    let mut sensor = AS5600::new(i2c, SENSOR_ADDR);

    let start: u16 = 0x0FFF;
    let result = sensor.config_stop_position(start);
    assert_eq!(result.unwrap(), 0x0FFF);

    assert_eq!(
        sensor.i2c.history,
        vec![
            RecordedTransaction::Write {
                addr: SENSOR_ADDR,
                bytes: vec![ConfigRegisters::MPosHi.addr(), 0x0F, 0xFF],
            },
            RecordedTransaction::WriteRead {
                addr: SENSOR_ADDR,
                out: vec![ConfigRegisters::MPosHi.addr()],
                read: vec![0x0F, 0xFF],
            },
        ]
    );
    assert!(sensor.i2c.script_done());
}

#[test]
fn test_config_angular_range() {
    let script = vec![BusStep::Respond(vec![]), BusStep::Respond(vec![0x0F, 0xFF])];
    let i2c = ScriptedBus::new(script);
    let mut sensor = AS5600::new(i2c, SENSOR_ADDR);

    let angle_range: u16 = 0x0FFF;
    let result = sensor.config_angular_range(angle_range);
    assert_eq!(result.unwrap(), 0x0FFF);

    assert_eq!(
        sensor.i2c.history,
        vec![
            RecordedTransaction::Write {
                addr: SENSOR_ADDR,
                bytes: vec![ConfigRegisters::MAngHi.addr(), 0x0F, 0xFF],
            },
            RecordedTransaction::WriteRead {
                addr: SENSOR_ADDR,
                out: vec![ConfigRegisters::MAngHi.addr()],
                read: vec![0x0F, 0xFF],
            },
        ]
    );
    assert!(sensor.i2c.script_done());
}

#[test]
fn test_reading_agc() {
    let script = vec![BusStep::Respond(vec![0x0F, 0xFF])];
    let i2c = ScriptedBus::new(script);
    let mut sensor = AS5600::new(i2c, SENSOR_ADDR);

    let result = sensor.read_agc();
    assert!(result.is_ok());
    assert_eq!(result.unwrap(), 0x0FFF);

    assert_eq!(
        sensor.i2c.history,
        vec![RecordedTransaction::WriteRead {
            addr: SENSOR_ADDR,
            out: vec![StatusRegisters::AGC.addr()],
            read: vec![0x0F, 0xFF],
        }]
    );
    assert!(sensor.i2c.script_done());
}

#[test]
fn test_reading_magnitude() {
    let script = vec![BusStep::Respond(vec![0x0F, 0xFF])];
    let i2c = ScriptedBus::new(script);
    let mut sensor = AS5600::new(i2c, SENSOR_ADDR);

    let result = sensor.read_magnitude();
    assert!(result.is_ok());
    assert_eq!(result.unwrap(), 0x0FFF);

    assert_eq!(
        sensor.i2c.history,
        vec![RecordedTransaction::WriteRead {
            addr: SENSOR_ADDR,
            out: vec![StatusRegisters::MagnitudeHi.addr()],
            read: vec![0x0F, 0xFF],
        }]
    );
    assert!(sensor.i2c.script_done());
}

#[test]
fn test_reading_angle() {
    let script = vec![BusStep::Respond(vec![0x0F, 0xFF])];
    let i2c = ScriptedBus::new(script);
    let mut sensor = AS5600::new(i2c, SENSOR_ADDR);

    let result = sensor.read_angle();
    assert!(result.is_ok());
    assert_eq!(result.unwrap(), 0x0FFF);

    assert_eq!(
        sensor.i2c.history,
        vec![RecordedTransaction::WriteRead {
            addr: SENSOR_ADDR,
            out: vec![OutputRegisters::AngleHi.addr()],
            read: vec![0x0F, 0xFF],
        }]
    );
    assert!(sensor.i2c.script_done());
}

#[test]
fn test_reading_raw_angle() {
    let script = vec![BusStep::Respond(vec![0x0F, 0xFF])];
    let i2c = ScriptedBus::new(script);
    let mut sensor = AS5600::new(i2c, SENSOR_ADDR);

    let result = sensor.read_raw_angle();
    assert!(result.is_ok());
    assert_eq!(result.unwrap(), 0x0FFF);

    assert_eq!(
        sensor.i2c.history,
        vec![RecordedTransaction::WriteRead {
            addr: SENSOR_ADDR,
            out: vec![OutputRegisters::RawAngleHi.addr()],
            read: vec![0x0F, 0xFF],
        }]
    );
    assert!(sensor.i2c.script_done());
}

#[test]
fn test_tempoary_address_change() {
    let script = vec![BusStep::Respond(vec![]), BusStep::Respond(vec![])];
    let i2c = ScriptedBus::new(script);
    let mut sensor = AS5600::new(i2c, SENSOR_ADDR);

    let address: u8 = 0x41;
    let result = sensor.set_temporary_address(address);
    assert!(result.is_ok());

    // Exactly two writes, in order, each carrying the new address; no read.
    assert_eq!(
        sensor.i2c.history,
        vec![
            RecordedTransaction::Write {
                addr: SENSOR_ADDR,
                bytes: vec![ConfigRegisters::I2cAddr.addr(), 0x41],
            },
            RecordedTransaction::Write {
                addr: SENSOR_ADDR,
                bytes: vec![ConfigRegisters::I2cUpdt.addr(), 0x41],
            },
        ]
    );
    // The handle keeps addressing the original bus address.
    assert_eq!(sensor.address, SENSOR_ADDR);
    assert!(sensor.i2c.script_done());
}

#[test]
fn test_burn_setting_cmd() {
    let script = vec![BusStep::Respond(vec![])];
    let i2c = ScriptedBus::new(script);
    let mut sensor = AS5600::new(i2c, SENSOR_ADDR);

    let result = sensor.burn_setting();
    assert!(result.is_ok());

    // Exactly one write: the burn command byte, then 0x40.
    assert_eq!(
        sensor.i2c.history,
        vec![RecordedTransaction::Write {
            addr: SENSOR_ADDR,
            bytes: vec![BurnCommands::Burn.addr(), 0x40],
        }]
    );
    assert!(sensor.i2c.script_done());
}
