//! Wireless probe: link statistics for each wireless interface and each
//! associated station, as read from the kernel. Reading the kernel socket
//! is the embedding process's concern; turning the readings into samples —
//! including skipping nameless interfaces and entries that would carry no
//! metric — is verified here.
use vstd::prelude::*;

use crate::message::ready_for_sink;
use crate::message::Message;
use crate::value::PayloadValue;

verus! {

/// The wireless probe's configuration: none.
pub struct Wireless {}

impl Wireless {
    /// The probe; the kernel socket is opened per pass by the embedding
    /// process.
    pub fn new() -> (r: Wireless) {
        Wireless {  }
    }
}

/// A wireless channel's width, as the kernel reports it.
pub enum ChannelWidth {
    Width20NoHT,
    Width20,
    Width40,
    Width80,
    Width80P80,
    Width160,
    Width5,
    Width10,
    Width1,
    Width2,
    Width4,
    Width8,
    Width16,
    Width320,
    Unknown,
}

/// The channel width in MHz, where the kernel reported one.
pub open spec fn spec_channel_width_number(w: ChannelWidth) -> Option<u32> {
    match w {
        ChannelWidth::Width20NoHT => Some(20u32),
        ChannelWidth::Width20 => Some(20u32),
        ChannelWidth::Width40 => Some(40u32),
        ChannelWidth::Width80 => Some(80u32),
        ChannelWidth::Width80P80 => Some(160u32),
        ChannelWidth::Width160 => Some(160u32),
        ChannelWidth::Width5 => Some(5u32),
        ChannelWidth::Width10 => Some(10u32),
        ChannelWidth::Width1 => Some(1u32),
        ChannelWidth::Width2 => Some(2u32),
        ChannelWidth::Width4 => Some(4u32),
        ChannelWidth::Width8 => Some(8u32),
        ChannelWidth::Width16 => Some(16u32),
        ChannelWidth::Width320 => Some(320u32),
        ChannelWidth::Unknown => None,
    }
}

/// The channel width in MHz, where the kernel reported one.
pub fn channel_width_to_number(w: &ChannelWidth) -> (r: Option<u32>)
    ensures
        r == spec_channel_width_number(*w),
{
    match w {
        ChannelWidth::Width20NoHT => Some(20u32),
        ChannelWidth::Width20 => Some(20u32),
        ChannelWidth::Width40 => Some(40u32),
        ChannelWidth::Width80 => Some(80u32),
        ChannelWidth::Width80P80 => Some(160u32),
        ChannelWidth::Width160 => Some(160u32),
        ChannelWidth::Width5 => Some(5u32),
        ChannelWidth::Width10 => Some(10u32),
        ChannelWidth::Width1 => Some(1u32),
        ChannelWidth::Width2 => Some(2u32),
        ChannelWidth::Width4 => Some(4u32),
        ChannelWidth::Width8 => Some(8u32),
        ChannelWidth::Width16 => Some(16u32),
        ChannelWidth::Width320 => Some(320u32),
        ChannelWidth::Unknown => None,
    }
}

/// One direction's rate reading for a station.
pub struct RateData {
    /// Bitrate in 100 kbit/s units.
    pub bitrate: u32,
    /// MCS index.
    pub mcs: u8,
    /// The connection or frame type, rendered.
    pub connection_type: String,
}

/// One associated station's readings.
pub struct StationData {
    /// The station's MAC address, rendered.
    pub mac: String,
    pub signal: Option<u8>,
    pub rx_bytes: Option<u64>,
    pub tx_bytes: Option<u64>,
    pub rx_packets: Option<u32>,
    pub tx_packets: Option<u32>,
    pub tx_retries: Option<u32>,
    pub tx_failed: Option<u32>,
    pub rx_bitrate: Option<RateData>,
    pub tx_bitrate: Option<RateData>,
}

/// One wireless interface's readings, with its stations.
pub struct InterfaceData {
    /// The interface name; nameless interfaces yield no sample.
    pub name: String,
    /// The interface's MAC address, rendered.
    pub mac: String,
    pub ssid: Option<String>,
    pub frequency: Option<u32>,
    pub channel_width: ChannelWidth,
    pub tx_power: Option<u32>,
    /// The stations associated with this interface.
    pub stations: Vec<StationData>,
}

/// Whether an interface reading carries at least one metric.
pub open spec fn spec_interface_has_metrics(d: InterfaceData) -> bool {
    ||| d.frequency is Some
    ||| spec_channel_width_number(d.channel_width) is Some
    ||| d.tx_power is Some
}

/// The metrics an interface sample carries.
pub open spec fn spec_interface_metrics(d: InterfaceData) -> Map<Seq<char>, PayloadValue> {
    let m0 = Map::<Seq<char>, PayloadValue>::empty();
    let m1 = if d.frequency is Some {
        m0.insert("frequency"@, PayloadValue::Uint32(d.frequency->Some_0))
    } else {
        m0
    };
    let m2 = if spec_channel_width_number(d.channel_width) is Some {
        m1.insert(
            "channel_width"@,
            PayloadValue::Uint32(spec_channel_width_number(d.channel_width)->Some_0),
        )
    } else {
        m1
    };
    if d.tx_power is Some {
        m2.insert("tx_power"@, PayloadValue::Uint32(d.tx_power->Some_0))
    } else {
        m2
    }
}

/// The tags an interface sample carries.
pub open spec fn spec_interface_tags(d: InterfaceData) -> Map<Seq<char>, Seq<char>> {
    let t0 = Map::<Seq<char>, Seq<char>>::empty().insert("name"@, d.name@).insert(
        "interface_mac"@,
        d.mac@,
    );
    if d.ssid matches Some(s) && s@.len() > 0 {
        t0.insert("ssid"@, d.ssid->Some_0@)
    } else {
        t0
    }
}

/// Whether a station reading carries at least one metric.
pub open spec fn spec_station_has_metrics(s: StationData) -> bool {
    ||| s.signal is Some
    ||| s.rx_bytes is Some
    ||| s.tx_bytes is Some
    ||| s.rx_packets is Some
    ||| s.tx_packets is Some
    ||| s.tx_retries is Some
    ||| s.tx_failed is Some
    ||| s.rx_bitrate is Some
    ||| s.tx_bitrate is Some
}

/// How many of an interface's stations yield a sample.
pub open spec fn spec_station_yield(ss: Seq<StationData>) -> int
    decreases ss.len(),
{
    if ss.len() == 0 {
        0
    } else {
        spec_station_yield(ss.drop_last()) + if spec_station_has_metrics(ss.last()) {
            1int
        } else {
            0int
        }
    }
}

/// How many samples one interface reading yields: none for a nameless or
/// metric-less interface, else one for the interface and one per station
/// that carries a metric.
pub open spec fn spec_interface_yield(d: InterfaceData) -> int {
    if d.name@.len() == 0 || !spec_interface_has_metrics(d) {
        0
    } else {
        1 + spec_station_yield(d.stations@)
    }
}

/// How many samples a whole reading yields.
pub open spec fn spec_total_yield(ds: Seq<InterfaceData>) -> int
    decreases ds.len(),
{
    if ds.len() == 0 {
        0
    } else {
        spec_total_yield(ds.drop_last()) + spec_interface_yield(ds.last())
    }
}

/// The sample for one interface reading, or nothing for a nameless
/// interface or one that would carry no metric.
pub fn interface_message(d: &InterfaceData) -> (r: Option<Message>)
    ensures
        r is Some <==> d.name@.len() > 0 && spec_interface_has_metrics(*d),
        r matches Some(m) ==> ready_for_sink(m) && m.source_view() == "wireless_interface"@
            && m.metric_map() =~= spec_interface_metrics(*d) && m.tag_map()
            =~= spec_interface_tags(*d),
{
    if d.name.as_str().is_empty() {
        return None;
    }
    proof {
        reveal_strlit("wireless_interface");
    }
    let mut m = Message::new("wireless_interface");
    m.insert_tag("name", d.name.as_str());
    m.insert_tag("interface_mac", d.mac.as_str());
    match &d.ssid {
        Some(s) => {
            if !s.as_str().is_empty() {
                m.insert_tag("ssid", s.as_str());
            }
        },
        None => {},
    }
    let mut any: bool = false;
    match &d.frequency {
        Some(f) => {
            m.insert_metric("frequency", PayloadValue::Uint32(*f));
            any = true;
        },
        None => {},
    }
    match channel_width_to_number(&d.channel_width) {
        Some(w) => {
            m.insert_metric("channel_width", PayloadValue::Uint32(w));
            any = true;
        },
        None => {},
    }
    match &d.tx_power {
        Some(p) => {
            m.insert_metric("tx_power", PayloadValue::Uint32(*p));
            any = true;
        },
        None => {},
    }
    if any {
        Some(m)
    } else {
        None
    }
}

/// The metrics a station sample carries.
pub open spec fn spec_station_metrics(s: StationData) -> Map<Seq<char>, PayloadValue> {
    let m0 = Map::<Seq<char>, PayloadValue>::empty();
    let m1 = if s.signal is Some {
        m0.insert("signal_strength"@, PayloadValue::Uint8(s.signal->Some_0))
    } else {
        m0
    };
    let m2 = if s.rx_bytes is Some {
        m1.insert("rx_bytes"@, PayloadValue::Uint64(s.rx_bytes->Some_0))
    } else {
        m1
    };
    let m3 = if s.tx_bytes is Some {
        m2.insert("tx_bytes"@, PayloadValue::Uint64(s.tx_bytes->Some_0))
    } else {
        m2
    };
    let m4 = if s.rx_packets is Some {
        m3.insert("rx_packets"@, PayloadValue::Uint32(s.rx_packets->Some_0))
    } else {
        m3
    };
    let m5 = if s.tx_packets is Some {
        m4.insert("tx_packets"@, PayloadValue::Uint32(s.tx_packets->Some_0))
    } else {
        m4
    };
    let m6 = if s.tx_retries is Some {
        m5.insert("tx_retries"@, PayloadValue::Uint32(s.tx_retries->Some_0))
    } else {
        m5
    };
    let m7 = if s.tx_failed is Some {
        m6.insert("tx_failed"@, PayloadValue::Uint32(s.tx_failed->Some_0))
    } else {
        m6
    };
    let m8 = match s.rx_bitrate {
        Some(r) => m7.insert("rx_bitrate"@, PayloadValue::Uint32(r.bitrate)).insert(
            "rx_mcs"@,
            PayloadValue::Uint8(r.mcs),
        ).insert("rx_connection_type"@, PayloadValue::Text(r.connection_type)),
        None => m7,
    };
    match s.tx_bitrate {
        Some(r) => m8.insert("tx_bitrate"@, PayloadValue::Uint32(r.bitrate)).insert(
            "tx_mcs"@,
            PayloadValue::Uint8(r.mcs),
        ).insert("tx_connection_type"@, PayloadValue::Text(r.connection_type)),
        None => m8,
    }
}

/// The sample for one station reading, or nothing where it would carry no
/// metric.
pub fn station_message(interface_mac: &str, s: &StationData) -> (r: Option<Message>)
    ensures
        r is Some <==> spec_station_has_metrics(*s),
        r matches Some(m) ==> ready_for_sink(m) && m.source_view() == "wireless_station"@
            && m.metric_map() =~= spec_station_metrics(*s) && m.tag_map() =~= Map::<
            Seq<char>,
            Seq<char>,
        >::empty().insert("interface_mac"@, interface_mac@).insert("station_mac"@, s.mac@),
{
    proof {
        reveal_strlit("wireless_station");
    }
    let mut m = Message::new("wireless_station");
    m.insert_tag("interface_mac", interface_mac);
    m.insert_tag("station_mac", s.mac.as_str());
    let mut any: bool = false;
    match &s.signal {
        Some(v) => {
            m.insert_metric("signal_strength", PayloadValue::Uint8(*v));
            any = true;
        },
        None => {},
    }
    match &s.rx_bytes {
        Some(v) => {
            m.insert_metric("rx_bytes", PayloadValue::Uint64(*v));
            any = true;
        },
        None => {},
    }
    match &s.tx_bytes {
        Some(v) => {
            m.insert_metric("tx_bytes", PayloadValue::Uint64(*v));
            any = true;
        },
        None => {},
    }
    match &s.rx_packets {
        Some(v) => {
            m.insert_metric("rx_packets", PayloadValue::Uint32(*v));
            any = true;
        },
        None => {},
    }
    match &s.tx_packets {
        Some(v) => {
            m.insert_metric("tx_packets", PayloadValue::Uint32(*v));
            any = true;
        },
        None => {},
    }
    match &s.tx_retries {
        Some(v) => {
            m.insert_metric("tx_retries", PayloadValue::Uint32(*v));
            any = true;
        },
        None => {},
    }
    match &s.tx_failed {
        Some(v) => {
            m.insert_metric("tx_failed", PayloadValue::Uint32(*v));
            any = true;
        },
        None => {},
    }
    match &s.rx_bitrate {
        Some(r) => {
            m.insert_metric("rx_bitrate", PayloadValue::Uint32(r.bitrate));
            m.insert_metric("rx_mcs", PayloadValue::Uint8(r.mcs));
            m.insert_metric("rx_connection_type", PayloadValue::Text(r.connection_type.clone()));
            any = true;
        },
        None => {},
    }
    match &s.tx_bitrate {
        Some(r) => {
            m.insert_metric("tx_bitrate", PayloadValue::Uint32(r.bitrate));
            m.insert_metric("tx_mcs", PayloadValue::Uint8(r.mcs));
            m.insert_metric("tx_connection_type", PayloadValue::Text(r.connection_type.clone()));
            any = true;
        },
        None => {},
    }
    if any {
        Some(m)
    } else {
        None
    }
}

/// Turns one whole reading into samples: one per named interface that
/// carries a metric, and one per station with a metric under such an
/// interface. Every sample is fit for a sink.
pub fn messages_from_interfaces(interfaces: &Vec<InterfaceData>) -> (r: Vec<Message>)
    ensures
        r@.len() == spec_total_yield(interfaces@),
        forall|k: int| 0 <= k < r@.len() ==> ready_for_sink(#[trigger] r@[k]),
        forall|k: int|
            0 <= k < r@.len() ==> ((#[trigger] r@[k]).source_view() == "wireless_interface"@
                || r@[k].source_view() == "wireless_station"@),
{
    let mut out: Vec<Message> = Vec::new();
    let mut i: usize = 0;
    proof {
        assert(interfaces@.take(0) =~= Seq::<InterfaceData>::empty());
    }
    while i < interfaces.len()
        invariant
            i <= interfaces@.len(),
            out@.len() == spec_total_yield(interfaces@.take(i as int)),
            forall|k: int| 0 <= k < out@.len() ==> ready_for_sink(#[trigger] out@[k]),
            forall|k: int|
                0 <= k < out@.len() ==> ((#[trigger] out@[k]).source_view()
                    == "wireless_interface"@ || out@[k].source_view() == "wireless_station"@),
        decreases interfaces@.len() - i,
    {
        let d = &interfaces[i];
        match interface_message(d) {
            Some(m) => {
                out.push(m);
                let mut j: usize = 0;
                proof {
                    assert(d.stations@.take(0) =~= Seq::<StationData>::empty());
                }
                while j < d.stations.len()
                    invariant
                        i < interfaces@.len(),
                        j <= d.stations@.len(),
                        d == &interfaces@[i as int],
                        out@.len() == spec_total_yield(interfaces@.take(i as int)) + 1
                            + spec_station_yield(d.stations@.take(j as int)),
                        forall|k: int| 0 <= k < out@.len() ==> ready_for_sink(#[trigger] out@[k]),
                        forall|k: int|
                            0 <= k < out@.len() ==> ((#[trigger] out@[k]).source_view()
                                == "wireless_interface"@ || out@[k].source_view()
                                == "wireless_station"@),
                    decreases d.stations@.len() - j,
                {
                    match station_message(d.mac.as_str(), &d.stations[j]) {
                        Some(sm) => {
                            out.push(sm);
                        },
                        None => {},
                    }
                    proof {
                        assert(d.stations@.take(j as int + 1).drop_last() =~= d.stations@.take(
                            j as int,
                        ));
                        assert(d.stations@.take(j as int + 1).last() == d.stations@[j as int]);
                    }
                    j = j + 1;
                }
                proof {
                    assert(d.stations@.take(d.stations@.len() as int) =~= d.stations@);
                    assert(interfaces@.take(i as int + 1).drop_last() =~= interfaces@.take(
                        i as int,
                    ));
                    assert(interfaces@.take(i as int + 1).last() == interfaces@[i as int]);
                }
            },
            None => {
                proof {
                    assert(interfaces@.take(i as int + 1).drop_last() =~= interfaces@.take(
                        i as int,
                    ));
                    assert(interfaces@.take(i as int + 1).last() == interfaces@[i as int]);
                }
            },
        }
        i = i + 1;
    }
    proof {
        assert(interfaces@.take(interfaces@.len() as int) =~= interfaces@);
    }
    out
}

} // verus!
