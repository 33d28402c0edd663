use zlgcan::config::{ChannelConfig, ExtraValue, CHANNEL_MODE, CHANNEL_TYPE};
use zlgcan::error::{CanError, Failure};
use zlgcan::timing::{parse_key, BusTiming, PresetTable, TimingDescriptor};

fn t(brp: u16) -> BusTiming {
    BusTiming { tseg1: 14, tseg2: 3, sjw: 2, smp: 0, brp }
}

fn table() -> PresetTable {
    let mut tb = PresetTable::new();
    tb.add_family("41", 60_000_000).unwrap();
    tb.add_timing("41", false, "500000", t(5)).unwrap();
    tb.add_timing("41", false, "250000", t(11)).unwrap();
    tb.add_timing("41", true, "2000000", t(1)).unwrap();
    tb.add_timing("41", true, "500000", t(5)).unwrap();
    tb
}

#[test]
fn config_defaults_and_builders() {
    let c = ChannelConfig::new(500_000);
    assert_eq!(c.bitrate(), 500_000);
    assert_eq!(c.dbitrate(), None);
    assert_eq!(c.resistance(), None);
    let c = c.with_data_bitrate(2_000_000).with_resistance(false);
    assert_eq!(c.dbitrate(), Some(2_000_000));
    assert_eq!(c.resistance(), Some(false));
}

#[test]
fn config_extras_typed() {
    let mut c = ChannelConfig::new(500_000);
    assert_eq!(c.get_u8(CHANNEL_TYPE), Ok(None));
    c.set_extra(CHANNEL_TYPE, ExtraValue::U8(0));
    c.set_extra(CHANNEL_MODE, ExtraValue::U32(1));
    c.set_extra("custom", ExtraValue::Bool(true));
    assert_eq!(c.get_u8(CHANNEL_TYPE), Ok(Some(0)));
    assert_eq!(c.get_u8(CHANNEL_MODE), Err(CanError::TypeMismatch));
    assert_eq!(c.get_u32(CHANNEL_MODE), Ok(Some(1)));
    assert_eq!(c.get_bool("custom"), Ok(Some(true)));
    assert_eq!(c.get_bool(CHANNEL_TYPE), Err(CanError::TypeMismatch));
    c.set_extra(CHANNEL_TYPE, ExtraValue::U8(2));
    assert_eq!(c.get_extra(CHANNEL_TYPE), Some(ExtraValue::U8(2)));
    assert_eq!(c.get_extra("absent"), None);
}

#[test]
fn keys_parse_as_decimal() {
    assert_eq!(parse_key("41"), Ok(41));
    assert_eq!(parse_key("4294967295"), Ok(u32::MAX));
    assert_eq!(parse_key("4294967296"), Err(CanError::ConfigLoadError));
    assert_eq!(parse_key(""), Err(CanError::ConfigLoadError));
    assert_eq!(parse_key("4a"), Err(CanError::ConfigLoadError));
    assert_eq!(parse_key("-1"), Err(CanError::ConfigLoadError));
}

#[test]
fn malformed_table_source_fails() {
    let mut tb = PresetTable::new();
    assert_eq!(tb.add_family("x41", 1), Err(CanError::ConfigLoadError));
    assert_eq!(tb.add_timing("41", false, "500k", t(1)), Err(CanError::ConfigLoadError));
}

#[test]
fn resolves_exact_entries() {
    let tb = table();
    let c = ChannelConfig::new(500_000).with_data_bitrate(2_000_000);
    assert_eq!(
        tb.resolve(41, &c),
        Ok(TimingDescriptor { clock: 60_000_000, nominal: t(5), data: t(1) })
    );
    let c = ChannelConfig::new(500_000);
    assert_eq!(
        tb.resolve(41, &c),
        Ok(TimingDescriptor { clock: 60_000_000, nominal: t(5), data: t(5) })
    );
}

#[test]
fn absent_bitrate_is_unsupported() {
    let tb = table();
    let c = ChannelConfig::new(499_999);
    assert_eq!(tb.resolve(41, &c), Err(CanError::UnsupportedBitrateError(499_999)));
    let c = ChannelConfig::new(250_000).with_data_bitrate(250_000);
    assert_eq!(tb.resolve(41, &c), Err(CanError::UnsupportedBitrateError(250_000)));
    let c = ChannelConfig::new(500_000).with_data_bitrate(1_000_000);
    assert_eq!(tb.resolve(41, &c), Err(CanError::UnsupportedBitrateError(1_000_000)));
}

#[test]
fn absent_family_is_an_initialize_error() {
    let tb = table();
    let c = ChannelConfig::new(500_000);
    assert_eq!(
        tb.resolve(42, &c),
        Err(CanError::InitializeError(Failure::FamilyNotConfigured(42)))
    );
}

#[test]
fn later_entry_replaces_earlier() {
    let mut tb = table();
    tb.add_timing("41", false, "500000", t(9)).unwrap();
    let c = ChannelConfig::new(500_000);
    assert_eq!(tb.resolve(41, &c).unwrap().nominal, t(9));
}

#[test]
fn data_phase_looked_up_only_when_requested() {
    let mut tb = PresetTable::new();
    tb.add_family("4", 8_000_000).unwrap();
    tb.add_timing("4", false, "250000", t(3)).unwrap();
    let c = ChannelConfig::new(250_000);
    assert_eq!(
        tb.resolve(4, &c),
        Ok(TimingDescriptor { clock: 8_000_000, nominal: t(3), data: t(3) })
    );
    let c = ChannelConfig::new(250_000).with_data_bitrate(250_000);
    assert_eq!(tb.resolve(4, &c), Err(CanError::UnsupportedBitrateError(250_000)));
}
