//! Battery service of the QEMU platform: ACPI battery methods answered from
//! a fixed battery model, with a settable trip point (BTP) and measurement
//! control (BMC).
use vstd::prelude::*;
use crate::payload::{le_u32_at, padded, u32s_le_bytes, Payload};
use crate::service::{DirectRequest, Response, Service, ServiceError};

verus! {

/// The UUID of the service, 25cb5207-ac36-427d-aaef-3aa78877d27e.
pub const BATTERY_UUID: u128 = 0x25cb5207_ac36_427d_aaef_3aa78877d27e;

pub const EC_BAT_GET_BIX: u8 = 0x1;
pub const EC_BAT_GET_BST: u8 = 0x2;
pub const EC_BAT_GET_PSR: u8 = 0x3;
pub const EC_BAT_GET_PIF: u8 = 0x4;
pub const EC_BAT_GET_BPS: u8 = 0x5;
pub const EC_BAT_GET_BTP: u8 = 0x6;
pub const EC_BAT_GET_BPT: u8 = 0x7;
pub const EC_BAT_GET_BPC: u8 = 0x8;
pub const EC_BAT_GET_BMC: u8 = 0x9;
pub const EC_BAT_GET_BMD: u8 = 0xa;
pub const EC_BAT_GET_BCT: u8 = 0xb;
pub const EC_BAT_GET_BTM: u8 = 0xc;
pub const EC_BAT_GET_BMS: u8 = 0xd;
pub const EC_BAT_GET_BMA: u8 = 0xe;
pub const EC_BAT_GET_STA: u8 = 0xf;

/// Offset of the value written by BTP and BMC.
pub const SET_VALUE_OFFSET: usize = 4;
/// Offset of the flag byte that asks BTP and BMC to store the value.
pub const SET_FLAG_OFFSET: usize = 8;

/// Battery status (_BST).
pub struct BstRsp {
    pub state: u32,
    pub present_rate: u32,
    pub remaining_cap: u32,
    pub present_volt: u32,
}

impl BstRsp {
    /// The fields, in order.
    pub open spec fn values(self) -> Seq<u32> {
        seq![self.state, self.present_rate, self.remaining_cap, self.present_volt]
    }

    /// The fields as little-endian `u32`s, one after the other.
    pub fn into_payload(self) -> (p: Payload)
        ensures
            p@ == padded(u32s_le_bytes(self.values())),
    {
        let vals = [self.state, self.present_rate, self.remaining_cap, self.present_volt];
        assert(vals@ =~= self.values());
        Payload::from_u32s(vals.as_slice())
    }

    /// Reads the fields back from a payload.
    pub fn from_payload(p: &Payload) -> (r: Self)
        ensures
            r.state == le_u32_at(p@, 0),
            r.present_rate == le_u32_at(p@, 4),
            r.remaining_cap == le_u32_at(p@, 8),
            r.present_volt == le_u32_at(p@, 12),
    {
        BstRsp {
            state: p.u32_at(0),
            present_rate: p.u32_at(4),
            remaining_cap: p.u32_at(8),
            present_volt: p.u32_at(12),
        }
    }
}


/// Battery information (_BIX).
pub struct BixRsp {
    pub events: u32,
    pub status: u32,
    pub last_full_charge: u32,
    pub cycle_count: u32,
    pub state: u32,
    pub present_rate: u32,
    pub remaining_cap: u32,
    pub present_volt: u32,
    pub psr_state: u32,
    pub psr_max_out: u32,
    pub psr_max_in: u32,
}

impl BixRsp {
    /// The fields, in order.
    pub open spec fn values(self) -> Seq<u32> {
        seq![self.events, self.status, self.last_full_charge, self.cycle_count, self.state, self.present_rate, self.remaining_cap, self.present_volt, self.psr_state, self.psr_max_out, self.psr_max_in]
    }

    /// The fields as little-endian `u32`s, one after the other.
    pub fn into_payload(self) -> (p: Payload)
        ensures
            p@ == padded(u32s_le_bytes(self.values())),
    {
        let vals = [self.events, self.status, self.last_full_charge, self.cycle_count, self.state, self.present_rate, self.remaining_cap, self.present_volt, self.psr_state, self.psr_max_out, self.psr_max_in];
        assert(vals@ =~= self.values());
        Payload::from_u32s(vals.as_slice())
    }

    /// Reads the fields back from a payload.
    pub fn from_payload(p: &Payload) -> (r: Self)
        ensures
            r.events == le_u32_at(p@, 0),
            r.status == le_u32_at(p@, 4),
            r.last_full_charge == le_u32_at(p@, 8),
            r.cycle_count == le_u32_at(p@, 12),
            r.state == le_u32_at(p@, 16),
            r.present_rate == le_u32_at(p@, 20),
            r.remaining_cap == le_u32_at(p@, 24),
            r.present_volt == le_u32_at(p@, 28),
            r.psr_state == le_u32_at(p@, 32),
            r.psr_max_out == le_u32_at(p@, 36),
            r.psr_max_in == le_u32_at(p@, 40),
    {
        BixRsp {
            events: p.u32_at(0),
            status: p.u32_at(4),
            last_full_charge: p.u32_at(8),
            cycle_count: p.u32_at(12),
            state: p.u32_at(16),
            present_rate: p.u32_at(20),
            remaining_cap: p.u32_at(24),
            present_volt: p.u32_at(28),
            psr_state: p.u32_at(32),
            psr_max_out: p.u32_at(36),
            psr_max_in: p.u32_at(40),
        }
    }
}


/// Power source (_PSR).
pub struct PsrRsp {
    pub psr_state: u32,
}

impl PsrRsp {
    /// The fields, in order.
    pub open spec fn values(self) -> Seq<u32> {
        seq![self.psr_state]
    }

    /// The fields as little-endian `u32`s, one after the other.
    pub fn into_payload(self) -> (p: Payload)
        ensures
            p@ == padded(u32s_le_bytes(self.values())),
    {
        let vals = [self.psr_state];
        assert(vals@ =~= self.values());
        Payload::from_u32s(vals.as_slice())
    }

    /// Reads the fields back from a payload.
    pub fn from_payload(p: &Payload) -> (r: Self)
        ensures
            r.psr_state == le_u32_at(p@, 0),
    {
        PsrRsp {
            psr_state: p.u32_at(0),
        }
    }
}


/// Power source information (_PIF).
pub struct PifRsp {
    pub max_power: u32,
}

impl PifRsp {
    /// The fields, in order.
    pub open spec fn values(self) -> Seq<u32> {
        seq![self.max_power]
    }

    /// The fields as little-endian `u32`s, one after the other.
    pub fn into_payload(self) -> (p: Payload)
        ensures
            p@ == padded(u32s_le_bytes(self.values())),
    {
        let vals = [self.max_power];
        assert(vals@ =~= self.values());
        Payload::from_u32s(vals.as_slice())
    }

    /// Reads the fields back from a payload.
    pub fn from_payload(p: &Payload) -> (r: Self)
        ensures
            r.max_power == le_u32_at(p@, 0),
    {
        PifRsp {
            max_power: p.u32_at(0),
        }
    }
}


/// Device status (_STA).
pub struct StaRsp {
    pub sta_status: u32,
}

impl StaRsp {
    /// The fields, in order.
    pub open spec fn values(self) -> Seq<u32> {
        seq![self.sta_status]
    }

    /// The fields as little-endian `u32`s, one after the other.
    pub fn into_payload(self) -> (p: Payload)
        ensures
            p@ == padded(u32s_le_bytes(self.values())),
    {
        let vals = [self.sta_status];
        assert(vals@ =~= self.values());
        Payload::from_u32s(vals.as_slice())
    }

    /// Reads the fields back from a payload.
    pub fn from_payload(p: &Payload) -> (r: Self)
        ensures
            r.sta_status == le_u32_at(p@, 0),
    {
        StaRsp {
            sta_status: p.u32_at(0),
        }
    }
}


/// A single value.
pub struct ValueRsp {
    pub value: u32,
}

impl ValueRsp {
    /// The fields, in order.
    pub open spec fn values(self) -> Seq<u32> {
        seq![self.value]
    }

    /// The fields as little-endian `u32`s, one after the other.
    pub fn into_payload(self) -> (p: Payload)
        ensures
            p@ == padded(u32s_le_bytes(self.values())),
    {
        let vals = [self.value];
        assert(vals@ =~= self.values());
        Payload::from_u32s(vals.as_slice())
    }

    /// Reads the fields back from a payload.
    pub fn from_payload(p: &Payload) -> (r: Self)
        ensures
            r.value == le_u32_at(p@, 0),
    {
        ValueRsp {
            value: p.u32_at(0),
        }
    }
}

/// Reading back a written trip point: after a BTP request with the flag byte
/// set, a BTP request without it answers the written value and changes nothing.
pub proof fn lemma_btp_round_trip(
    b0: Battery,
    set_msg: DirectRequest,
    b1: Battery,
    r1: Result<Response, ServiceError>,
    get_msg: DirectRequest,
    b2: Battery,
    r2: Result<Response, ServiceError>,
)
    requires
        b0.handled(set_msg, b1, r1),
        b1.handled(get_msg, b2, r2),
        set_msg.payload@[0] == EC_BAT_GET_BTP,
        set_msg.payload@[SET_FLAG_OFFSET as int] != 0,
        get_msg.payload@[0] == EC_BAT_GET_BTP,
        get_msg.payload@[SET_FLAG_OFFSET as int] == 0,
    ensures
        b1.trip_thres == le_u32_at(set_msg.payload@, SET_VALUE_OFFSET as int),
        b2 == b1,
        r1 matches Ok(resp) && resp.payload@ == padded(u32s_le_bytes(seq![b1.trip_thres])),
        r2 matches Ok(resp) && resp.payload@ == padded(u32s_le_bytes(seq![b1.trip_thres])),
{
}

/// Reading back written measurement control, as for the trip point.
pub proof fn lemma_bmc_round_trip(
    b0: Battery,
    set_msg: DirectRequest,
    b1: Battery,
    r1: Result<Response, ServiceError>,
    get_msg: DirectRequest,
    b2: Battery,
    r2: Result<Response, ServiceError>,
)
    requires
        b0.handled(set_msg, b1, r1),
        b1.handled(get_msg, b2, r2),
        set_msg.payload@[0] == EC_BAT_GET_BMC,
        set_msg.payload@[SET_FLAG_OFFSET as int] != 0,
        get_msg.payload@[0] == EC_BAT_GET_BMC,
        get_msg.payload@[SET_FLAG_OFFSET as int] == 0,
    ensures
        b1.bmc_data == le_u32_at(set_msg.payload@, SET_VALUE_OFFSET as int),
        b2 == b1,
        r1 matches Ok(resp) && resp.payload@ == padded(u32s_le_bytes(seq![b1.bmc_data])),
        r2 matches Ok(resp) && resp.payload@ == padded(u32s_le_bytes(seq![b1.bmc_data])),
{
}

/// Only BTP and BMC with the flag byte set change the model, and they change
/// only the trip point and the measurement control respectively.
pub proof fn lemma_only_writes_change_state(b: Battery, p: Seq<u8>)
    ensures
        battery_step(b, p) matches Ok((b2, _v)) ==> {
            &&& (p[0] == EC_BAT_GET_BTP && p[SET_FLAG_OFFSET as int] != 0) || b2.trip_thres == b.trip_thres
            &&& (p[0] == EC_BAT_GET_BMC && p[SET_FLAG_OFFSET as int] != 0) || b2.bmc_data == b.bmc_data
            &&& b2 == Battery { trip_thres: b2.trip_thres, bmc_data: b2.bmc_data, ..b }
        },
        battery_step(b, p) is Err ==> battery_step(b, p) == Err::<(Battery, Seq<u32>), ServiceError>(ServiceError::UnknownBatteryCommand)
            && (p[0] == 0 || p[0] > EC_BAT_GET_STA),
{
}

/// Every known command is answered with the values it reads, as little-endian
/// `u32`s: the value at byte `4 * i` of the answer is value `i`.
pub proof fn lemma_answer_reads_back(b: Battery, p: Seq<u8>, i: int)
    requires
        battery_step(b, p) matches Ok((_b2, vals)) && 0 <= i < vals.len(),
    ensures
        battery_step(b, p) matches Ok((_b2, vals)) && le_u32_at(padded(u32s_le_bytes(vals)), 4 * i) == vals[i],
{
    let vals = battery_step(b, p).unwrap().1;
    crate::payload::lemma_u32s_read_back(vals, i);
}

/// The battery model.
pub struct Battery {
    pub events: u32,
    pub status: u32,
    pub last_full_charge: u32,
    pub cycle_count: u32,
    pub state: u32,
    pub present_rate: u32,
    pub remaining_cap: u32,
    pub present_volt: u32,
    pub psr_state: u32,
    pub psr_max_out: u32,
    pub psr_max_in: u32,
    pub peak_level: u32,
    pub peak_power: u32,
    pub sus_level: u32,
    pub sus_power: u32,
    pub peak_thres: u32,
    pub sus_thres: u32,
    pub trip_thres: u32,
    pub bmc_data: u32,
    pub bmd_data: u32,
    pub bmd_flags: u32,
    pub bmd_count: u32,
    pub charge_time: u32,
    pub run_time: u32,
    pub sample_time: u32,
    pub sta_status: u32,
    pub pif_max_power: u32,
    pub bps_status: u32,
    pub bma_data: u32,
    pub bms_data: u32,
    pub btm_temp: u32,
}

/// The model a new service starts from.
pub open spec fn initial_battery() -> Battery {
    Battery {
        events: 0,
        status: 0,
        last_full_charge: 4500,
        cycle_count: 42,
        state: 0x1,
        present_rate: 500,
        remaining_cap: 5000,
        present_volt: 12000,
        psr_state: 0x1,
        psr_max_out: 65000,
        psr_max_in: 0,
        peak_level: 100,
        peak_power: 45000,
        sus_level: 30,
        sus_power: 15000,
        peak_thres: 80,
        sus_thres: 20,
        trip_thres: 10,
        bmc_data: 0,
        bmd_data: 0,
        bmd_flags: 0,
        bmd_count: 0,
        charge_time: 120,
        run_time: 300,
        sample_time: 1000,
        sta_status: 0x1F,
        pif_max_power: 65000,
        bps_status: 0x1,
        bma_data: 0,
        bms_data: 0x1,
        btm_temp: 2980,
    }
}

/// The state after a BTP request: the trip point is stored when the flag byte is set.
pub open spec fn btp_step(b: Battery, p: Seq<u8>) -> Battery {
    if p[SET_FLAG_OFFSET as int] != 0 {
        Battery { trip_thres: le_u32_at(p, SET_VALUE_OFFSET as int), ..b }
    } else {
        b
    }
}

/// The state after a BMC request: the value is stored when the flag byte is set.
pub open spec fn bmc_step(b: Battery, p: Seq<u8>) -> Battery {
    if p[SET_FLAG_OFFSET as int] != 0 {
        Battery { bmc_data: le_u32_at(p, SET_VALUE_OFFSET as int), ..b }
    } else {
        b
    }
}

/// The answer in state `b` to the request payload `p`: the next state and
/// the values answered, or the error.
pub open spec fn battery_step(b: Battery, p: Seq<u8>) -> Result<(Battery, Seq<u32>), ServiceError> {
    let cmd = p[0];
    if cmd == EC_BAT_GET_BIX {
        Ok((b, seq![b.events, b.status, b.last_full_charge, b.cycle_count, b.state, b.present_rate, b.remaining_cap, b.present_volt, b.psr_state, b.psr_max_out, b.psr_max_in]))
    } else if cmd == EC_BAT_GET_BST {
        Ok((b, seq![b.state, b.present_rate, b.remaining_cap, b.present_volt]))
    } else if cmd == EC_BAT_GET_PSR {
        Ok((b, seq![b.psr_state]))
    } else if cmd == EC_BAT_GET_PIF {
        Ok((b, seq![b.pif_max_power]))
    } else if cmd == EC_BAT_GET_BPS {
        Ok((b, seq![b.bps_status]))
    } else if cmd == EC_BAT_GET_BTP {
        Ok((btp_step(b, p), seq![btp_step(b, p).trip_thres]))
    } else if cmd == EC_BAT_GET_BPT {
        Ok((b, seq![b.peak_thres]))
    } else if cmd == EC_BAT_GET_BPC {
        Ok((b, seq![b.peak_level]))
    } else if cmd == EC_BAT_GET_BMC {
        Ok((bmc_step(b, p), seq![bmc_step(b, p).bmc_data]))
    } else if cmd == EC_BAT_GET_BMD {
        Ok((b, seq![b.bmd_data]))
    } else if cmd == EC_BAT_GET_BCT {
        Ok((b, seq![b.charge_time]))
    } else if cmd == EC_BAT_GET_BTM {
        Ok((b, seq![b.btm_temp]))
    } else if cmd == EC_BAT_GET_BMS {
        Ok((b, seq![b.bms_data]))
    } else if cmd == EC_BAT_GET_BMA {
        Ok((b, seq![b.bma_data]))
    } else if cmd == EC_BAT_GET_STA {
        Ok((b, seq![b.sta_status]))
    } else {
        Err(ServiceError::UnknownBatteryCommand)
    }
}

impl Default for Battery {
    fn default() -> (r: Self)
        ensures
            r == initial_battery(),
    {
        Self::new()
    }
}

impl Battery {
    /// A battery discharging at 500 mW, 5000 mWh left, 12 V, on AC power.
    pub fn new() -> (r: Self)
        ensures
            r == initial_battery(),
    {
        Battery {
            events: 0,
            status: 0,
            last_full_charge: 4500, // mWh
            cycle_count: 42,
            state: 0x1, // discharging
            present_rate: 500, // mW drawn
            remaining_cap: 5000, // mWh remaining
            present_volt: 12000, // mV
            psr_state: 0x1, // AC adapter present
            psr_max_out: 65000, // mW
            psr_max_in: 0,
            peak_level: 100, // percent
            peak_power: 45000, // mW
            sus_level: 30,
            sus_power: 15000,
            peak_thres: 80,
            sus_thres: 20,
            trip_thres: 10, // trip point at 10 percent
            bmc_data: 0,
            bmd_data: 0,
            bmd_flags: 0,
            bmd_count: 0,
            charge_time: 120, // minutes to full
            run_time: 300, // minutes remaining
            sample_time: 1000, // ms between samples
            sta_status: 0x1F, // present, enabled, functional, shown
            pif_max_power: 65000, // mW
            bps_status: 0x1, // battery present
            bma_data: 0,
            bms_data: 0x1, // managed
            btm_temp: 2980, // tenths of a kelvin (25 degrees Celsius)
        }
    }

    pub fn get_bix(&self, _msg: &DirectRequest) -> (r: BixRsp)
        ensures
            r.values() == seq![self.events, self.status, self.last_full_charge, self.cycle_count, self.state, self.present_rate, self.remaining_cap, self.present_volt, self.psr_state, self.psr_max_out, self.psr_max_in],
    {
        BixRsp {
            events: self.events,
            status: self.status,
            last_full_charge: self.last_full_charge,
            cycle_count: self.cycle_count,
            state: self.state,
            present_rate: self.present_rate,
            remaining_cap: self.remaining_cap,
            present_volt: self.present_volt,
            psr_state: self.psr_state,
            psr_max_out: self.psr_max_out,
            psr_max_in: self.psr_max_in,
        }
    }

    pub fn get_bst(&self, _msg: &DirectRequest) -> (r: BstRsp)
        ensures
            r.values() == seq![self.state, self.present_rate, self.remaining_cap, self.present_volt],
    {
        BstRsp {
            state: self.state,
            present_rate: self.present_rate,
            remaining_cap: self.remaining_cap,
            present_volt: self.present_volt,
        }
    }

    pub fn get_psr(&self, _msg: &DirectRequest) -> (r: PsrRsp)
        ensures
            r.psr_state == self.psr_state,
    {
        PsrRsp { psr_state: self.psr_state }
    }

    pub fn get_pif(&self, _msg: &DirectRequest) -> (r: PifRsp)
        ensures
            r.max_power == self.pif_max_power,
    {
        PifRsp { max_power: self.pif_max_power }
    }

    pub fn get_bps(&self, _msg: &DirectRequest) -> (r: ValueRsp)
        ensures
            r.value == self.bps_status,
    {
        ValueRsp { value: self.bps_status }
    }

    /// Trip point: a non-zero flag byte at offset 8 stores the value at
    /// offset 4, which lets the trip point be set to 0 (disabled); the trip
    /// point is answered.
    pub fn handle_btp(&mut self, msg: &DirectRequest) -> (r: ValueRsp)
        ensures
            *final(self) == btp_step(*old(self), msg.payload@),
            r.value == final(self).trip_thres,
    {
        let set_flag = msg.payload.u8_at(SET_FLAG_OFFSET);
        if set_flag != 0 {
            self.trip_thres = msg.payload.u32_at(SET_VALUE_OFFSET);
        }
        ValueRsp { value: self.trip_thres }
    }

    pub fn get_bpt(&self, _msg: &DirectRequest) -> (r: ValueRsp)
        ensures
            r.value == self.peak_thres,
    {
        ValueRsp { value: self.peak_thres }
    }

    pub fn get_bpc(&self, _msg: &DirectRequest) -> (r: ValueRsp)
        ensures
            r.value == self.peak_level,
    {
        ValueRsp { value: self.peak_level }
    }

    /// Measurement control: stored as the trip point is; the value is answered.
    pub fn handle_bmc(&mut self, msg: &DirectRequest) -> (r: ValueRsp)
        ensures
            *final(self) == bmc_step(*old(self), msg.payload@),
            r.value == final(self).bmc_data,
    {
        let set_flag = msg.payload.u8_at(SET_FLAG_OFFSET);
        if set_flag != 0 {
            self.bmc_data = msg.payload.u32_at(SET_VALUE_OFFSET);
        }
        ValueRsp { value: self.bmc_data }
    }

    pub fn get_bmd(&self, _msg: &DirectRequest) -> (r: ValueRsp)
        ensures
            r.value == self.bmd_data,
    {
        ValueRsp { value: self.bmd_data }
    }

    pub fn get_bct(&self, _msg: &DirectRequest) -> (r: ValueRsp)
        ensures
            r.value == self.charge_time,
    {
        ValueRsp { value: self.charge_time }
    }

    pub fn get_btm(&self, _msg: &DirectRequest) -> (r: ValueRsp)
        ensures
            r.value == self.btm_temp,
    {
        ValueRsp { value: self.btm_temp }
    }

    pub fn get_bms(&self, _msg: &DirectRequest) -> (r: ValueRsp)
        ensures
            r.value == self.bms_data,
    {
        ValueRsp { value: self.bms_data }
    }

    pub fn get_bma(&self, _msg: &DirectRequest) -> (r: ValueRsp)
        ensures
            r.value == self.bma_data,
    {
        ValueRsp { value: self.bma_data }
    }

    pub fn get_sta(&self, _msg: &DirectRequest) -> (r: StaRsp)
        ensures
            r.sta_status == self.sta_status,
    {
        StaRsp { sta_status: self.sta_status }
    }
}

impl Service for Battery {
    const UUID: u128 = BATTERY_UUID;

    const NAME: &'static str = "Battery";

    open spec fn handled(self, msg: DirectRequest, after: Self, r: Result<Response, ServiceError>) -> bool {
        match battery_step(self, msg.payload@) {
            Ok((b, vals)) => {
                &&& after == b
                &&& r matches Ok(resp)
                &&& resp.call is None
                &&& resp.payload@ == padded(u32s_le_bytes(vals))
            },
            Err(e) => after == self && r == Err::<Response, ServiceError>(e),
        }
    }

    fn ffa_msg_send_direct_req2(&mut self, msg: &DirectRequest) -> (r: Result<Response, ServiceError>) {
        let cmd = msg.payload.u8_at(0);
        let payload = if cmd == EC_BAT_GET_BIX {
            self.get_bix(msg).into_payload()
        } else if cmd == EC_BAT_GET_BST {
            self.get_bst(msg).into_payload()
        } else if cmd == EC_BAT_GET_PSR {
            self.get_psr(msg).into_payload()
        } else if cmd == EC_BAT_GET_PIF {
            self.get_pif(msg).into_payload()
        } else if cmd == EC_BAT_GET_BPS {
            self.get_bps(msg).into_payload()
        } else if cmd == EC_BAT_GET_BTP {
            self.handle_btp(msg).into_payload()
        } else if cmd == EC_BAT_GET_BPT {
            self.get_bpt(msg).into_payload()
        } else if cmd == EC_BAT_GET_BPC {
            self.get_bpc(msg).into_payload()
        } else if cmd == EC_BAT_GET_BMC {
            self.handle_bmc(msg).into_payload()
        } else if cmd == EC_BAT_GET_BMD {
            self.get_bmd(msg).into_payload()
        } else if cmd == EC_BAT_GET_BCT {
            self.get_bct(msg).into_payload()
        } else if cmd == EC_BAT_GET_BTM {
            self.get_btm(msg).into_payload()
        } else if cmd == EC_BAT_GET_BMS {
            self.get_bms(msg).into_payload()
        } else if cmd == EC_BAT_GET_BMA {
            self.get_bma(msg).into_payload()
        } else if cmd == EC_BAT_GET_STA {
            self.get_sta(msg).into_payload()
        } else {
            return Err(ServiceError::UnknownBatteryCommand);
        };
        Ok(Response::reply(payload))
    }
}

} // verus!
