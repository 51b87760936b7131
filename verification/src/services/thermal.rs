//! Thermal service: temperature, per-sensor thresholds, cooling policy and a
//! small store of DWORD variables addressed by UUID.
use vstd::prelude::*;
use vstd::bytes::*;
use crate::payload::{
    le_u16_at, le_u32_at, le_u64_at, lemma_u32_read_back, lemma_u64_read_back, padded, push_le_u16, push_le_u32,
    push_le_u64, Payload,
};
use crate::service::{DirectRequest, FfaCall, Response, Service, ServiceError};
use crate::uuid_bytes::{be_bytes, uuid_bytes, uuid_from_le, uuid_from_slice_le};

verus! {

/// The UUID of the service, 31f56da7-593c-4d72-a4b3-8fc7171ac073.
pub const THERMAL_UUID: u128 = 0x31f56da7_593c_4d72_a4b3_8fc7171ac073;

pub const EC_THM_GET_TMP: u8 = 0x1;
pub const EC_THM_SET_THRS: u8 = 0x2;
pub const EC_THM_GET_THRS: u8 = 0x3;
pub const EC_THM_SET_SCP: u8 = 0x4;
pub const EC_THM_GET_VAR: u8 = 0x5;
pub const EC_THM_SET_VAR: u8 = 0x6;

pub const MAX_SENSORS: usize = 8;
pub const MAX_VARS: usize = 16;

pub const THM_STATUS_OK: i64 = 0;
pub const THM_STATUS_ERR: i64 = -1;

/// How long the normal world is asked to wait before a temperature read.
pub const TEMPERATURE_YIELD: u64 = 0x1_0000_0000;
/// The temperature reported.
pub const TEMPERATURE: u64 = 0x1234;

/// A response holding only a status.
pub struct GenericRsp {
    pub status: i64,
}

pub open spec fn generic_bytes(r: GenericRsp) -> Seq<u8> {
    spec_u64_to_le_bytes(r.status as u64)
}

impl GenericRsp {
    /// The status, little-endian.
    pub fn into_payload(self) -> (p: Payload)
        ensures
            p@ == padded(generic_bytes(self)),
    {
        proof { crate::payload::lemma_le_lens(); }
        let mut v: Vec<u8> = Vec::new();
        push_le_u64(&mut v, self.status as u64);
        Payload::from_bytes(v.as_slice())
    }
}

/// Answer to a temperature read.
pub struct TempRsp {
    pub status: i64,
    pub temp: u64,
}

pub open spec fn temp_bytes(r: TempRsp) -> Seq<u8> {
    spec_u64_to_le_bytes(r.status as u64) + spec_u64_to_le_bytes(r.temp)
}

impl TempRsp {
    /// Status then temperature, little-endian.
    pub fn into_payload(self) -> (p: Payload)
        ensures
            p@ == padded(temp_bytes(self)),
    {
        proof { crate::payload::lemma_le_lens(); }
        let mut v: Vec<u8> = Vec::new();
        push_le_u64(&mut v, self.status as u64);
        push_le_u64(&mut v, self.temp);
        Payload::from_bytes(v.as_slice())
    }
}

/// A request to set the thresholds of a sensor.
pub struct ThresholdReq {
    pub id: u8,
    pub timeout: u32,
    pub low_temp: u32,
    pub high_temp: u32,
}

/// Sensor id at byte 1, timeout as a `u16` at byte 3, low and high
/// temperature as `u32` at bytes 5 and 9.
pub open spec fn spec_threshold_req(p: Seq<u8>) -> ThresholdReq {
    ThresholdReq {
        id: p[1],
        timeout: le_u16_at(p, 3) as u32,
        low_temp: le_u32_at(p, 5),
        high_temp: le_u32_at(p, 9),
    }
}

impl ThresholdReq {
    pub fn from_payload(p: &Payload) -> (r: ThresholdReq)
        ensures
            r == spec_threshold_req(p@),
    {
        ThresholdReq {
            id: p.u8_at(1),
            timeout: p.u16_at(3) as u32,
            low_temp: p.u32_at(5),
            high_temp: p.u32_at(9),
        }
    }
}

/// A request to read a variable.
pub struct ReadVarReq {
    pub id: u8,
    pub len: u16,
    pub var_uuid: u128,
}

/// Instance id at byte 1, length as a `u16` at byte 2, the variable's UUID
/// little-endian in bytes 4..20.
pub open spec fn spec_read_var_req(p: Seq<u8>) -> ReadVarReq {
    ReadVarReq { id: p[1], len: le_u16_at(p, 2), var_uuid: uuid_from_le(p.subrange(4, 20)) as u128 }
}

/// Instance id, length (LE) and the UUID's bytes in RFC order.
pub open spec fn read_var_req_bytes(r: ReadVarReq, uuid_rfc: Seq<u8>) -> Seq<u8> {
    seq![r.id] + spec_u16_to_le_bytes(r.len) + uuid_rfc
}

impl ReadVarReq {
    pub fn from_payload(p: &Payload) -> (r: ReadVarReq)
        ensures
            r == spec_read_var_req(p@),
    {
        ReadVarReq { id: p.u8_at(1), len: p.u16_at(2), var_uuid: uuid_from_slice_le(p.slice(4, 20)) }
    }

    /// Instance id, length (LE), then the UUID's sixteen bytes in RFC order.
    pub fn into_payload(self) -> (p: Payload)
        ensures
            p@ == padded(read_var_req_bytes(self, be_bytes(self.var_uuid as nat, 16))),
    {
        proof { crate::payload::lemma_le_lens(); }
        let mut v: Vec<u8> = Vec::new();
        v.push(self.id);
        push_le_u16(&mut v, self.len);
        let u = uuid_bytes(self.var_uuid);
        let mut i: usize = 0;
        while i < 16
            invariant
                i <= 16,
                v@ == seq![self.id] + spec_u16_to_le_bytes(self.len) + u@.subrange(0, i as int),
                spec_u16_to_le_bytes(self.len).len() == 2,
            decreases 16 - i,
        {
            v.push(u[i]);
            i = i + 1;
            assert(v@ =~= seq![self.id] + spec_u16_to_le_bytes(self.len) + u@.subrange(0, i as int));
        }
        assert(u@.subrange(0, 16) =~= u@);
        assert(v@ == read_var_req_bytes(self, be_bytes(self.var_uuid as nat, 16)));
        Payload::from_bytes(v.as_slice())
    }
}

/// Answer to a variable read.
pub struct ReadVarRsp {
    pub status: i64,
    pub data: u32,
}

pub open spec fn read_var_rsp_bytes(r: ReadVarRsp) -> Seq<u8> {
    spec_u64_to_le_bytes(r.status as u64) + spec_u32_to_le_bytes(r.data)
}

impl ReadVarRsp {
    /// Status then data, little-endian.
    pub fn into_payload(self) -> (p: Payload)
        ensures
            p@ == padded(read_var_rsp_bytes(self)),
    {
        proof { crate::payload::lemma_le_lens(); }
        let mut v: Vec<u8> = Vec::new();
        push_le_u64(&mut v, self.status as u64);
        push_le_u32(&mut v, self.data);
        Payload::from_bytes(v.as_slice())
    }
}

/// A request to write a variable.
pub struct SetVarReq {
    pub id: u8,
    pub len: u16,
    pub var_uuid: u128,
    pub data: u32,
}

/// As a read request, with the data as a `u32` at byte 20.
pub open spec fn spec_set_var_req(p: Seq<u8>) -> SetVarReq {
    SetVarReq {
        id: p[1],
        len: le_u16_at(p, 2),
        var_uuid: uuid_from_le(p.subrange(4, 20)) as u128,
        data: le_u32_at(p, 20),
    }
}

impl SetVarReq {
    pub fn from_payload(p: &Payload) -> (r: SetVarReq)
        ensures
            r == spec_set_var_req(p@),
    {
        SetVarReq {
            id: p.u8_at(1),
            len: p.u16_at(2),
            var_uuid: uuid_from_slice_le(p.slice(4, 20)),
            data: p.u32_at(20),
        }
    }
}

/// The thresholds of a sensor.
#[derive(Clone, Copy, PartialEq, Eq, Structural)]
pub struct ThresholdData {
    pub timeout: u32,
    pub low_temp: u32,
    pub high_temp: u32,
}

/// Answer to a threshold read.
pub struct ThresholdRsp {
    pub status: i64,
    pub timeout: u32,
    pub low_temp: u32,
    pub high_temp: u32,
}

pub open spec fn threshold_rsp_bytes(r: ThresholdRsp) -> Seq<u8> {
    spec_u64_to_le_bytes(r.status as u64) + spec_u32_to_le_bytes(r.timeout) + spec_u32_to_le_bytes(r.low_temp)
        + spec_u32_to_le_bytes(r.high_temp)
}

impl ThresholdRsp {
    /// Status, timeout, low and high temperature, little-endian.
    pub fn into_payload(self) -> (p: Payload)
        ensures
            p@ == padded(threshold_rsp_bytes(self)),
    {
        proof { crate::payload::lemma_le_lens(); }
        let mut v: Vec<u8> = Vec::new();
        push_le_u64(&mut v, self.status as u64);
        push_le_u32(&mut v, self.timeout);
        push_le_u32(&mut v, self.low_temp);
        push_le_u32(&mut v, self.high_temp);
        Payload::from_bytes(v.as_slice())
    }
}

/// A request to set the cooling policy of a sensor.
pub struct CoolingPolicyReq {
    pub id: u8,
    pub policy_type: u8,
}

pub open spec fn spec_cooling_policy_req(p: Seq<u8>) -> CoolingPolicyReq {
    CoolingPolicyReq { id: p[1], policy_type: p[2] }
}

impl CoolingPolicyReq {
    pub fn from_payload(p: &Payload) -> (r: CoolingPolicyReq)
        ensures
            r == spec_cooling_policy_req(p@),
    {
        CoolingPolicyReq { id: p.u8_at(1), policy_type: p.u8_at(2) }
    }
}

/// The state of the thermal service: the thresholds of each sensor and the
/// stored variables, in the order they were first written.
pub struct ThermalView {
    pub thresholds: Seq<ThresholdData>,
    pub vars: Seq<(u128, u32)>,
}

pub open spec fn zero_threshold() -> ThresholdData {
    ThresholdData { timeout: 0, low_temp: 0, high_temp: 0 }
}

/// The state of a new service: zero thresholds, no variables.
pub open spec fn initial_view() -> ThermalView {
    ThermalView { thresholds: Seq::new(MAX_SENSORS as nat, |i: int| zero_threshold()), vars: Seq::empty() }
}

/// The first index of `vars` holding `u`, if any.
pub open spec fn find_var_spec(vars: Seq<(u128, u32)>, u: u128) -> Option<int> {
    if exists|i: int| 0 <= i < vars.len() && vars[i].0 == u {
        Some(choose|i: int| 0 <= i < vars.len() && vars[i].0 == u && forall|j: int| 0 <= j < i ==> vars[j].0 != u)
    } else {
        None
    }
}

/// Setting thresholds: stored for a sensor id below `MAX_SENSORS`, refused otherwise.
pub open spec fn set_threshold_step(s: ThermalView, req: ThresholdReq) -> (ThermalView, i64) {
    if (req.id as int) < MAX_SENSORS {
        (
            ThermalView {
                thresholds: s.thresholds.update(
                    req.id as int,
                    ThresholdData { timeout: req.timeout, low_temp: req.low_temp, high_temp: req.high_temp },
                ),
                vars: s.vars,
            },
            THM_STATUS_OK,
        )
    } else {
        (s, THM_STATUS_ERR)
    }
}

/// Reading thresholds: those stored for a valid sensor id, an error status
/// and zeros otherwise.
pub open spec fn get_threshold_step(s: ThermalView, id: u8) -> ThresholdRsp {
    if (id as int) < MAX_SENSORS {
        ThresholdRsp {
            status: THM_STATUS_OK,
            timeout: s.thresholds[id as int].timeout,
            low_temp: s.thresholds[id as int].low_temp,
            high_temp: s.thresholds[id as int].high_temp,
        }
    } else {
        ThresholdRsp { status: THM_STATUS_ERR, timeout: 0, low_temp: 0, high_temp: 0 }
    }
}

/// Setting a cooling policy: accepted, not stored, for a valid sensor id.
pub open spec fn cooling_policy_status(req: CoolingPolicyReq) -> i64 {
    if (req.id as int) < MAX_SENSORS { THM_STATUS_OK } else { THM_STATUS_ERR }
}

/// Reading a variable: only DWORD reads of a stored UUID succeed.
pub open spec fn get_variable_step(s: ThermalView, req: ReadVarReq) -> ReadVarRsp {
    if req.len != 4 {
        ReadVarRsp { status: THM_STATUS_ERR, data: 0 }
    } else {
        match find_var_spec(s.vars, req.var_uuid) {
            Some(i) => ReadVarRsp { status: THM_STATUS_OK, data: s.vars[i].1 },
            None => ReadVarRsp { status: THM_STATUS_ERR, data: 0 },
        }
    }
}

/// Writing a variable: only DWORD writes; a stored UUID is updated in place,
/// a new one is appended while fewer than `MAX_VARS` are stored, refused after.
pub open spec fn set_variable_step(s: ThermalView, req: SetVarReq) -> (ThermalView, i64) {
    if req.len != 4 {
        (s, THM_STATUS_ERR)
    } else {
        match find_var_spec(s.vars, req.var_uuid) {
            Some(i) => (
                ThermalView { thresholds: s.thresholds, vars: s.vars.update(i, (s.vars[i].0, req.data)) },
                THM_STATUS_OK,
            ),
            None => if s.vars.len() >= MAX_VARS {
                (s, THM_STATUS_ERR)
            } else {
                (ThermalView { thresholds: s.thresholds, vars: s.vars.push((req.var_uuid, req.data)) }, THM_STATUS_OK)
            },
        }
    }
}

/// The answer of the service in state `s` to the request payload `p`: the
/// next state, the call to make first, and the response bytes; or the error.
pub open spec fn thermal_step(s: ThermalView, p: Seq<u8>) -> Result<(ThermalView, Option<FfaCall>, Seq<u8>), ServiceError> {
    let cmd = p[0];
    if cmd == EC_THM_GET_TMP {
        Ok((
            s,
            Some(FfaCall::Yield { timeout: TEMPERATURE_YIELD }),
            temp_bytes(TempRsp { status: THM_STATUS_OK, temp: TEMPERATURE }),
        ))
    } else if cmd == EC_THM_SET_THRS {
        let st = set_threshold_step(s, spec_threshold_req(p));
        Ok((st.0, None, generic_bytes(GenericRsp { status: st.1 })))
    } else if cmd == EC_THM_GET_THRS {
        Ok((s, None, threshold_rsp_bytes(get_threshold_step(s, p[1]))))
    } else if cmd == EC_THM_SET_SCP {
        Ok((s, None, generic_bytes(GenericRsp { status: cooling_policy_status(spec_cooling_policy_req(p)) })))
    } else if cmd == EC_THM_GET_VAR {
        Ok((s, None, read_var_rsp_bytes(get_variable_step(s, spec_read_var_req(p)))))
    } else if cmd == EC_THM_SET_VAR {
        let st = set_variable_step(s, spec_set_var_req(p));
        Ok((st.0, None, generic_bytes(GenericRsp { status: st.1 })))
    } else {
        Err(ServiceError::UnknownThermalCommand)
    }
}

/// The keys of `vars` in order.
pub open spec fn var_keys(vars: Seq<(u128, u32)>) -> Seq<u128> {
    vars.map_values(|e: (u128, u32)| e.0)
}

/// A state is valid when it has one threshold slot per sensor and at most
/// `MAX_VARS` variables.
pub open spec fn valid_view(s: ThermalView) -> bool {
    &&& s.thresholds.len() == MAX_SENSORS
    &&& s.vars.len() <= MAX_VARS
}

/// What `find_var_spec` returns is the first slot holding `u`.
pub proof fn lemma_find_var_spec(vars: Seq<(u128, u32)>, u: u128)
    ensures
        find_var_spec(vars, u) matches Some(i) ==> {
            &&& 0 <= i < vars.len()
            &&& vars[i].0 == u
            &&& forall|j: int| 0 <= j < i ==> vars[j].0 != u
        },
        find_var_spec(vars, u) is None ==> forall|j: int| 0 <= j < vars.len() ==> vars[j].0 != u,
{
    if exists|i: int| 0 <= i < vars.len() && vars[i].0 == u {
        let w = choose|i: int| 0 <= i < vars.len() && vars[i].0 == u;
        lemma_first_exists(vars, u, w);
    }
}

/// Below a slot holding `u` there is a first slot holding `u`.
proof fn lemma_first_exists(vars: Seq<(u128, u32)>, u: u128, w: int)
    requires
        0 <= w < vars.len(),
        vars[w].0 == u,
    ensures
        exists|i: int| 0 <= i < vars.len() && vars[i].0 == u && forall|j: int| 0 <= j < i ==> vars[j].0 != u,
    decreases w,
{
    if exists|j: int| 0 <= j < w && vars[j].0 == u {
        let j = choose|j: int| 0 <= j < w && vars[j].0 == u;
        lemma_first_exists(vars, u, j);
    } else {
        assert(forall|j: int| 0 <= j < w ==> vars[j].0 != u);
    }
}

/// `find_var_spec` depends only on the keys of the store.
proof fn lemma_find_same_keys(a: Seq<(u128, u32)>, b: Seq<(u128, u32)>, u: u128)
    requires
        a.len() == b.len(),
        forall|j: int| 0 <= j < a.len() ==> a[j].0 == b[j].0,
    ensures
        find_var_spec(a, u) == find_var_spec(b, u),
{
    lemma_find_var_spec(a, u);
    lemma_find_var_spec(b, u);
    if let Some(i) = find_var_spec(a, u) {
        if let Some(k) = find_var_spec(b, u) {
            assert(!(i < k) && !(k < i)) by {
                if i < k { assert(b[i].0 == u); }
                if k < i { assert(a[k].0 == u); }
            }
        }
    }
}

/// Reading back a written threshold: after thresholds are set for a valid
/// sensor, reading that sensor gives them back with status OK.
pub proof fn lemma_threshold_round_trip(s: ThermalView, req: ThresholdReq)
    requires
        valid_view(s),
        (req.id as int) < MAX_SENSORS,
    ensures
        set_threshold_step(s, req).1 == THM_STATUS_OK,
        get_threshold_step(set_threshold_step(s, req).0, req.id) == (ThresholdRsp {
            status: THM_STATUS_OK,
            timeout: req.timeout,
            low_temp: req.low_temp,
            high_temp: req.high_temp,
        }),
{
}

/// Sensors are independent: setting the thresholds of one sensor leaves
/// what every other sensor reads unchanged.
pub proof fn lemma_sensors_independent(s: ThermalView, req: ThresholdReq, other: u8)
    requires
        valid_view(s),
        other != req.id,
    ensures
        get_threshold_step(set_threshold_step(s, req).0, other) == get_threshold_step(s, other),
{
}

/// A refused threshold write changes nothing.
pub proof fn lemma_threshold_refused_unchanged(s: ThermalView, req: ThresholdReq)
    requires
        set_threshold_step(s, req).1 != THM_STATUS_OK,
    ensures
        set_threshold_step(s, req).0 == s,
        set_threshold_step(s, req).1 == THM_STATUS_ERR,
        (req.id as int) >= MAX_SENSORS,
{
}

/// A variable write succeeds exactly when it is a DWORD write and the UUID is
/// already stored or the store is not full.
pub proof fn lemma_set_variable_accepted(s: ThermalView, req: SetVarReq)
    ensures
        set_variable_step(s, req).1 == THM_STATUS_OK <==> (req.len == 4 && (var_keys(s.vars).contains(req.var_uuid)
            || s.vars.len() < MAX_VARS)),
        set_variable_step(s, req).1 != THM_STATUS_OK ==> set_variable_step(s, req).1 == THM_STATUS_ERR
            && set_variable_step(s, req).0 == s,
{
    lemma_find_var_spec(s.vars, req.var_uuid);
    if let Some(i) = find_var_spec(s.vars, req.var_uuid) {
        assert(var_keys(s.vars)[i] == req.var_uuid);
    } else {
        assert(!var_keys(s.vars).contains(req.var_uuid));
    }
}

/// Reading back a written variable: after an accepted write, a DWORD read
/// of the same UUID gives the written data with status OK.
pub proof fn lemma_variable_round_trip(s: ThermalView, req: SetVarReq, id: u8)
    requires
        set_variable_step(s, req).1 == THM_STATUS_OK,
    ensures
        get_variable_step(set_variable_step(s, req).0, ReadVarReq { id, len: 4, var_uuid: req.var_uuid })
            == (ReadVarRsp { status: THM_STATUS_OK, data: req.data }),
{
    let t = set_variable_step(s, req).0;
    lemma_find_var_spec(s.vars, req.var_uuid);
    match find_var_spec(s.vars, req.var_uuid) {
        Some(i) => {
            lemma_find_same_keys(s.vars, t.vars, req.var_uuid);
        },
        None => {
            lemma_find_var_spec(t.vars, req.var_uuid);
            let n = s.vars.len() as int;
            assert(t.vars[n].0 == req.var_uuid);
            let k = find_var_spec(t.vars, req.var_uuid).unwrap();
            assert(k == n) by {
                if k < n { assert(t.vars[k] == s.vars[k]); }
            }
        },
    }
}

/// Writing one variable leaves what every other UUID reads unchanged.
pub proof fn lemma_variables_independent(s: ThermalView, req: SetVarReq, read: ReadVarReq)
    requires
        read.var_uuid != req.var_uuid,
    ensures
        get_variable_step(set_variable_step(s, req).0, read) == get_variable_step(s, read),
{
    let t = set_variable_step(s, req).0;
    lemma_find_var_spec(s.vars, req.var_uuid);
    lemma_find_var_spec(s.vars, read.var_uuid);
    lemma_find_var_spec(t.vars, read.var_uuid);
    if req.len == 4 {
        match find_var_spec(s.vars, req.var_uuid) {
            Some(i) => {
                lemma_find_same_keys(s.vars, t.vars, read.var_uuid);
                if let Some(k) = find_var_spec(s.vars, read.var_uuid) {
                    assert(k != i);
                }
            },
            None => {
                if s.vars.len() < MAX_VARS {
                    let n = s.vars.len() as int;
                    match find_var_spec(s.vars, read.var_uuid) {
                        Some(k) => {
                            assert(t.vars[k] == s.vars[k]);
                            if let Some(k2) = find_var_spec(t.vars, read.var_uuid) {
                                assert(k2 == k) by {
                                    if k2 < k { assert(t.vars[k2] == s.vars[k2]); }
                                }
                            }
                        },
                        None => {
                            if let Some(k2) = find_var_spec(t.vars, read.var_uuid) {
                                assert(k2 != n);
                                assert(t.vars[k2] == s.vars[k2]);
                            }
                        },
                    }
                }
            },
        }
    }
}

/// Every step keeps a state valid, and keeps each UUID stored at most once.
pub proof fn lemma_steps_keep_valid(s: ThermalView, p: Seq<u8>)
    requires
        valid_view(s),
        var_keys(s.vars).no_duplicates(),
    ensures
        thermal_step(s, p) matches Ok((t, _c, _b)) ==> valid_view(t) && var_keys(t.vars).no_duplicates(),
{
    if p[0] == EC_THM_SET_VAR {
        let req = spec_set_var_req(p);
        let t = set_variable_step(s, req).0;
        lemma_find_var_spec(s.vars, req.var_uuid);
        if req.len == 4 {
            match find_var_spec(s.vars, req.var_uuid) {
                Some(i) => {
                    assert(var_keys(t.vars) =~= var_keys(s.vars));
                },
                None => {
                    if s.vars.len() < MAX_VARS {
                        assert(var_keys(t.vars) =~= var_keys(s.vars).push(req.var_uuid));
                        assert forall|a: int, b: int| 0 <= a < b < var_keys(t.vars).len() implies
                            var_keys(t.vars)[a] != var_keys(t.vars)[b] by {
                            if b == s.vars.len() {
                                assert(s.vars[a].0 != req.var_uuid);
                            }
                        }
                    }
                },
            }
        }
    }
}

/// A store that is full refuses a UUID it does not hold and stays as it was,
/// while a UUID it holds can still be updated.
pub proof fn lemma_full_store(s: ThermalView, req: SetVarReq)
    requires
        s.vars.len() >= MAX_VARS,
        req.len == 4,
    ensures
        !var_keys(s.vars).contains(req.var_uuid) ==> set_variable_step(s, req) == (s, THM_STATUS_ERR),
        var_keys(s.vars).contains(req.var_uuid) ==> set_variable_step(s, req).1 == THM_STATUS_OK
            && set_variable_step(s, req).0.vars.len() == s.vars.len(),
{
    lemma_set_variable_accepted(s, req);
    lemma_find_var_spec(s.vars, req.var_uuid);
    if var_keys(s.vars).contains(req.var_uuid) {
        let i = choose|i: int| 0 <= i < var_keys(s.vars).len() && var_keys(s.vars)[i] == req.var_uuid;
        assert(s.vars[i].0 == req.var_uuid);
    }
}

/// The initial state is valid and stores no UUID twice; every valid sensor
/// reads zero thresholds with status OK, and every variable read fails with
/// data 0.
pub proof fn lemma_initial_state(id: u8, read: ReadVarReq)
    ensures
        valid_view(initial_view()),
        var_keys(initial_view().vars).no_duplicates(),
        (id as int) < MAX_SENSORS ==> get_threshold_step(initial_view(), id) == (ThresholdRsp {
            status: THM_STATUS_OK,
            timeout: 0,
            low_temp: 0,
            high_temp: 0,
        }),
        get_variable_step(initial_view(), read) == (ReadVarRsp { status: THM_STATUS_ERR, data: 0 }),
{
    lemma_find_var_spec(initial_view().vars, read.var_uuid);
}

/// Read-back through the wire of a status-only answer: the `i64` at byte 0
/// is the status.
pub proof fn lemma_generic_rsp_wire(r: GenericRsp)
    ensures
        le_u64_at(padded(generic_bytes(r)), 0) == r.status as u64,
{
    lemma_u64_read_back(Seq::empty(), r.status as u64, Seq::empty());
    assert(Seq::<u8>::empty() + spec_u64_to_le_bytes(r.status as u64) + Seq::<u8>::empty() =~= generic_bytes(r));
}

/// Read-back through the wire of a temperature answer: status at byte 0,
/// temperature at byte 8.
pub proof fn lemma_temp_rsp_wire(r: TempRsp)
    ensures
        le_u64_at(padded(temp_bytes(r)), 0) == r.status as u64,
        le_u64_at(padded(temp_bytes(r)), 8) == r.temp,
{
    crate::payload::lemma_le_lens();
    let a = spec_u64_to_le_bytes(r.status as u64);
    let b = spec_u64_to_le_bytes(r.temp);
    lemma_u64_read_back(Seq::empty(), r.status as u64, b);
    assert(Seq::<u8>::empty() + a + b =~= temp_bytes(r));
    lemma_u64_read_back(a, r.temp, Seq::empty());
    assert(a + b + Seq::<u8>::empty() =~= temp_bytes(r));
}

/// Read-back through the wire of a variable answer: the status is the `i64`
/// at byte 0 and the full 32-bit data is the `u32` at byte 8.
pub proof fn lemma_read_var_rsp_wire(r: ReadVarRsp)
    ensures
        le_u64_at(padded(read_var_rsp_bytes(r)), 0) == r.status as u64,
        le_u32_at(padded(read_var_rsp_bytes(r)), 8) == r.data,
{
    crate::payload::lemma_le_lens();
    let a = spec_u64_to_le_bytes(r.status as u64);
    let b = spec_u32_to_le_bytes(r.data);
    lemma_u64_read_back(Seq::empty(), r.status as u64, b);
    assert(Seq::<u8>::empty() + a + b =~= read_var_rsp_bytes(r));
    lemma_u32_read_back(a, r.data, Seq::empty());
    assert(a + b + Seq::<u8>::empty() =~= read_var_rsp_bytes(r));
}

/// Read-back through the wire of a threshold answer: the status is the
/// `i64` at byte 0, and the full 32-bit timeout, low and high temperature are
/// the `u32`s at bytes 8, 12 and 16.
pub proof fn lemma_threshold_rsp_wire(r: ThresholdRsp)
    ensures
        le_u64_at(padded(threshold_rsp_bytes(r)), 0) == r.status as u64,
        le_u32_at(padded(threshold_rsp_bytes(r)), 8) == r.timeout,
        le_u32_at(padded(threshold_rsp_bytes(r)), 12) == r.low_temp,
        le_u32_at(padded(threshold_rsp_bytes(r)), 16) == r.high_temp,
{
    crate::payload::lemma_le_lens();
    let a = spec_u64_to_le_bytes(r.status as u64);
    let b = spec_u32_to_le_bytes(r.timeout);
    let c = spec_u32_to_le_bytes(r.low_temp);
    let d = spec_u32_to_le_bytes(r.high_temp);
    let all = threshold_rsp_bytes(r);
    lemma_u64_read_back(Seq::empty(), r.status as u64, b + c + d);
    assert(Seq::<u8>::empty() + a + (b + c + d) =~= all);
    lemma_u32_read_back(a, r.timeout, c + d);
    assert(a + b + (c + d) =~= all);
    lemma_u32_read_back(a + b, r.low_temp, d);
    assert(a + b + c + d =~= all);
    lemma_u32_read_back(a + b + c, r.high_temp, Seq::empty());
    assert(a + b + c + d + Seq::<u8>::empty() =~= all);
}

/// Setting a cooling policy through the service: a SET_SCP request answers,
/// with no FF-A call and no change of state, status 0 when its sensor id
/// (byte 1) is below 8 and status -1 (all bits set on the wire) otherwise.
pub proof fn lemma_service_cooling_policy(
    t0: Thermal,
    msg: DirectRequest,
    t1: Thermal,
    r: Result<Response, ServiceError>,
)
    requires
        t0.handled(msg, t1, r),
        msg.payload@[0] == 0x4u8,
    ensures
        t1@ == t0@,
        r matches Ok(resp) && resp.call is None && le_u64_at(resp.payload@, 0) == (if msg.payload@[1] < 8 {
            0u64
        } else {
            0xffff_ffff_ffff_ffffu64
        }),
        r matches Ok(resp) && resp.payload@ == padded(
            spec_u64_to_le_bytes(if msg.payload@[1] < 8 { 0u64 } else { 0xffff_ffff_ffff_ffffu64 }),
        ),
{
    let st = cooling_policy_status(spec_cooling_policy_req(msg.payload@));
    lemma_generic_rsp_wire(GenericRsp { status: st });
    assert((-1i64) as u64 == 0xffff_ffff_ffff_ffffu64) by (bit_vector);
}

/// Through the service: after an accepted SET_VAR request, a GET_VAR request
/// for a DWORD with the same UUID bytes answers status OK and the written data,
/// and leaves the state as it was.
pub proof fn lemma_service_variable_round_trip(
    t0: Thermal,
    set_msg: DirectRequest,
    t1: Thermal,
    r1: Result<Response, ServiceError>,
    get_msg: DirectRequest,
    t2: Thermal,
    r2: Result<Response, ServiceError>,
)
    requires
        t0.handled(set_msg, t1, r1),
        t1.handled(get_msg, t2, r2),
        set_msg.payload@[0] == EC_THM_SET_VAR,
        get_msg.payload@[0] == EC_THM_GET_VAR,
        le_u16_at(get_msg.payload@, 2) == 4,
        get_msg.payload@.subrange(4, 20) == set_msg.payload@.subrange(4, 20),
        set_variable_step(t0@, spec_set_var_req(set_msg.payload@)).1 == THM_STATUS_OK,
    ensures
        t2@ == t1@,
        r2 matches Ok(resp) && resp.call is None && resp.payload@ == padded(
            read_var_rsp_bytes(ReadVarRsp { status: THM_STATUS_OK, data: le_u32_at(set_msg.payload@, 20) }),
        ),
        r2 matches Ok(resp) && le_u64_at(resp.payload@, 0) == 0 && le_u32_at(resp.payload@, 8) == le_u32_at(
            set_msg.payload@,
            20,
        ),
{
    let req = spec_set_var_req(set_msg.payload@);
    lemma_read_var_rsp_wire(ReadVarRsp { status: THM_STATUS_OK, data: le_u32_at(set_msg.payload@, 20) });
    lemma_variable_round_trip(t0@, req, get_msg.payload@[1]);
    assert(spec_read_var_req(get_msg.payload@) == ReadVarReq { id: get_msg.payload@[1], len: 4, var_uuid: req.var_uuid });
}

/// Through the service: after a SET_THRS request for a valid sensor, a
/// GET_THRS request for that sensor answers status OK and the written
/// thresholds.
pub proof fn lemma_service_threshold_round_trip(
    t0: Thermal,
    set_msg: DirectRequest,
    t1: Thermal,
    r1: Result<Response, ServiceError>,
    get_msg: DirectRequest,
    t2: Thermal,
    r2: Result<Response, ServiceError>,
)
    requires
        t0.handled(set_msg, t1, r1),
        t1.handled(get_msg, t2, r2),
        set_msg.payload@[0] == EC_THM_SET_THRS,
        get_msg.payload@[0] == EC_THM_GET_THRS,
        get_msg.payload@[1] == set_msg.payload@[1],
        (set_msg.payload@[1] as int) < MAX_SENSORS,
    ensures
        t2@ == t1@,
        r1 matches Ok(resp) && resp.payload@ == padded(generic_bytes(GenericRsp { status: THM_STATUS_OK })),
        r2 matches Ok(resp) && resp.call is None && resp.payload@ == padded(
            threshold_rsp_bytes(ThresholdRsp {
                status: THM_STATUS_OK,
                timeout: le_u16_at(set_msg.payload@, 3) as u32,
                low_temp: le_u32_at(set_msg.payload@, 5),
                high_temp: le_u32_at(set_msg.payload@, 9),
            }),
        ),
        r2 matches Ok(resp) && {
            &&& le_u64_at(resp.payload@, 0) == 0
            &&& le_u32_at(resp.payload@, 8) == le_u16_at(set_msg.payload@, 3) as u32
            &&& le_u32_at(resp.payload@, 12) == le_u32_at(set_msg.payload@, 5)
            &&& le_u32_at(resp.payload@, 16) == le_u32_at(set_msg.payload@, 9)
        },
{
    lemma_view_valid(t0);
    lemma_threshold_round_trip(t0@, spec_threshold_req(set_msg.payload@));
    lemma_threshold_rsp_wire(ThresholdRsp {
        status: THM_STATUS_OK,
        timeout: le_u16_at(set_msg.payload@, 3) as u32,
        low_temp: le_u32_at(set_msg.payload@, 5),
        high_temp: le_u32_at(set_msg.payload@, 9),
    });
}

/// The thermal service.
pub struct Thermal {
    thresholds: [ThresholdData; MAX_SENSORS],
    variables: [(u128, u32); MAX_VARS],
    var_count: usize,
}

impl View for Thermal {
    type V = ThermalView;

    /// The thresholds, and the first `var_count` slots of the variable store.
    /// The type invariant keeps `var_count` at most `MAX_VARS`, so the bound
    /// below never cuts the store short.
    closed spec fn view(&self) -> ThermalView {
        ThermalView {
            thresholds: self.thresholds@,
            vars: self.variables@.subrange(
                0,
                if self.var_count <= MAX_VARS { self.var_count as int } else { MAX_VARS as int },
            ),
        }
    }
}

/// Every thermal service is in a valid state: one threshold slot per sensor
/// and at most `MAX_VARS` variables.
pub proof fn lemma_view_valid(t: Thermal)
    ensures
        valid_view(t@),
{
}

/// Setting thresholds through the service: a SET_THRS request for a sensor
/// below `MAX_SENSORS` answers status OK, stores the request's timeout, low
/// and high temperature for that sensor (over any earlier value) and leaves
/// every other sensor and the variables as they were; for any other sensor
/// id it answers status -1 and changes nothing.
pub proof fn lemma_service_set_threshold(
    t0: Thermal,
    msg: DirectRequest,
    t1: Thermal,
    r: Result<Response, ServiceError>,
)
    requires
        t0.handled(msg, t1, r),
        msg.payload@[0] == EC_THM_SET_THRS,
    ensures
        ({
            let id = msg.payload@[1] as int;
            if id < MAX_SENSORS {
                &&& r matches Ok(resp) && resp.call is None
                    && resp.payload@ == padded(generic_bytes(GenericRsp { status: THM_STATUS_OK }))
                &&& t1@.thresholds[id] == (ThresholdData {
                    timeout: le_u16_at(msg.payload@, 3) as u32,
                    low_temp: le_u32_at(msg.payload@, 5),
                    high_temp: le_u32_at(msg.payload@, 9),
                })
                &&& t1@.thresholds.len() == t0@.thresholds.len()
                &&& forall|j: int| 0 <= j < MAX_SENSORS && j != id ==> t1@.thresholds[j] == t0@.thresholds[j]
                &&& t1@.vars == t0@.vars
            } else {
                &&& r matches Ok(resp) && resp.call is None
                    && resp.payload@ == padded(generic_bytes(GenericRsp { status: THM_STATUS_ERR }))
                &&& t1@ == t0@
            }
        }),
{
    lemma_view_valid(t0);
}

impl Default for Thermal {
    fn default() -> (r: Self)
        ensures
            r@ == initial_view(),
    {
        Self::new()
    }
}

impl Thermal {
    #[verifier::type_invariant]
    spec fn inv(&self) -> bool {
        self.var_count <= MAX_VARS
    }

    /// A service with zero thresholds and no variables.
    pub fn new() -> (r: Self)
        ensures
            r@ == initial_view(),
    {
        let zero = ThresholdData { timeout: 0, low_temp: 0, high_temp: 0 };
        let r = Thermal { thresholds: [zero; 8], variables: [(0u128, 0u32); 16], var_count: 0 };
        assert(r@.thresholds =~= initial_view().thresholds);
        assert(r@.vars =~= initial_view().vars);
        r
    }

    /// The index of sensor `id`, if it is a valid sensor.
    pub fn sensor_index(id: u8) -> (r: Option<usize>)
        ensures
            r == (if (id as int) < MAX_SENSORS { Some(id as usize) } else { None::<usize> }),
    {
        let idx = id as usize;
        if idx < MAX_SENSORS {
            Some(idx)
        } else {
            None
        }
    }

    /// The first slot holding `var_uuid`, if any.
    fn find_var(&self, var_uuid: u128) -> (r: Option<usize>)
        ensures
            r matches Some(i) ==> find_var_spec(self@.vars, var_uuid) == Some(i as int),
            r is None ==> find_var_spec(self@.vars, var_uuid) is None,
    {
        proof { use_type_invariant(self); }
        let ghost vars = self@.vars;
        let mut i: usize = 0;
        while i < self.var_count
            invariant
                i <= self.var_count <= MAX_VARS,
                vars == self@.vars,
                vars.len() == self.var_count,
                forall|j: int| 0 <= j < i ==> vars[j].0 != var_uuid,
            decreases self.var_count - i,
        {
            assert(vars[i as int] == self.variables@[i as int]);
            if self.variables[i].0 == var_uuid {
                assert(find_var_spec(vars, var_uuid) == Some(i as int));
                return Some(i);
            }
            i = i + 1;
        }
        None
    }

    /// Temperature read: the normal world is first asked to wait.
    pub fn get_temperature(&mut self, _msg: &DirectRequest) -> (r: Response)
        ensures
            r.call == Some(FfaCall::Yield { timeout: TEMPERATURE_YIELD }),
            r.payload@ == padded(temp_bytes(TempRsp { status: THM_STATUS_OK, temp: TEMPERATURE })),
            final(self)@ == old(self)@,
    {
        Response {
            call: Some(FfaCall::Yield { timeout: TEMPERATURE_YIELD }),
            payload: TempRsp { status: THM_STATUS_OK, temp: TEMPERATURE }.into_payload(),
        }
    }

    pub fn set_threshold(&mut self, msg: &DirectRequest) -> (r: GenericRsp)
        ensures
            final(self)@ == set_threshold_step(old(self)@, spec_threshold_req(msg.payload@)).0,
            r.status == set_threshold_step(old(self)@, spec_threshold_req(msg.payload@)).1,
    {
        proof { use_type_invariant(&*self); }
        let req = ThresholdReq::from_payload(&msg.payload);
        let idx = match Self::sensor_index(req.id) {
            Some(idx) => idx,
            None => {
                return GenericRsp { status: THM_STATUS_ERR };
            },
        };
        self.thresholds[idx] = ThresholdData {
            timeout: req.timeout,
            low_temp: req.low_temp,
            high_temp: req.high_temp,
        };
        GenericRsp { status: THM_STATUS_OK }
    }

    pub fn get_threshold(&self, msg: &DirectRequest) -> (r: ThresholdRsp)
        ensures
            r == get_threshold_step(self@, msg.payload@[1]),
    {
        let id = msg.payload.u8_at(1);
        let idx = match Self::sensor_index(id) {
            Some(idx) => idx,
            None => {
                return ThresholdRsp { status: THM_STATUS_ERR, timeout: 0, low_temp: 0, high_temp: 0 };
            },
        };
        let data = self.thresholds[idx];
        ThresholdRsp {
            status: THM_STATUS_OK,
            timeout: data.timeout,
            low_temp: data.low_temp,
            high_temp: data.high_temp,
        }
    }

    /// The policy is validated but not stored: no command reads it back.
    pub fn set_cooling_policy(&mut self, msg: &DirectRequest) -> (r: GenericRsp)
        ensures
            r.status == cooling_policy_status(spec_cooling_policy_req(msg.payload@)),
            final(self)@ == old(self)@,
    {
        let req = CoolingPolicyReq::from_payload(&msg.payload);
        if Self::sensor_index(req.id).is_none() {
            return GenericRsp { status: THM_STATUS_ERR };
        }
        GenericRsp { status: THM_STATUS_OK }
    }

    pub fn get_variable(&self, msg: &DirectRequest) -> (r: ReadVarRsp)
        ensures
            r == get_variable_step(self@, spec_read_var_req(msg.payload@)),
    {
        proof { use_type_invariant(self); }
        let req = ReadVarReq::from_payload(&msg.payload);
        if req.len != 4 {
            return ReadVarRsp { status: THM_STATUS_ERR, data: 0 };
        }
        match self.find_var(req.var_uuid) {
            Some(i) => {
                assert(self@.vars[i as int] == self.variables@[i as int]);
                ReadVarRsp { status: THM_STATUS_OK, data: self.variables[i].1 }
            },
            None => ReadVarRsp { status: THM_STATUS_ERR, data: 0 },
        }
    }

    pub fn set_variable(&mut self, msg: &DirectRequest) -> (r: GenericRsp)
        ensures
            final(self)@ == set_variable_step(old(self)@, spec_set_var_req(msg.payload@)).0,
            r.status == set_variable_step(old(self)@, spec_set_var_req(msg.payload@)).1,
    {
        proof { use_type_invariant(&*self); }
        let req = SetVarReq::from_payload(&msg.payload);
        if req.len != 4 {
            return GenericRsp { status: THM_STATUS_ERR };
        }
        match self.find_var(req.var_uuid) {
            Some(i) => {
                let u = self.variables[i].0;
                self.variables[i] = (u, req.data);
                assert(self@.vars =~= old(self)@.vars.update(i as int, (old(self)@.vars[i as int].0, req.data)));
                return GenericRsp { status: THM_STATUS_OK };
            },
            None => {},
        }
        if self.var_count >= MAX_VARS {
            return GenericRsp { status: THM_STATUS_ERR };
        }
        let n = self.var_count;
        self.variables[n] = (req.var_uuid, req.data);
        self.var_count = n + 1;
        assert(self@.vars =~= old(self)@.vars.push((req.var_uuid, req.data)));
        GenericRsp { status: THM_STATUS_OK }
    }
}

impl Service for Thermal {
    const UUID: u128 = THERMAL_UUID;

    const NAME: &'static str = "Thermal";

    open spec fn handled(self, msg: DirectRequest, after: Self, r: Result<Response, ServiceError>) -> bool {
        match thermal_step(self@, msg.payload@) {
            Ok((s, call, bytes)) => {
                &&& after@ == s
                &&& r matches Ok(resp)
                &&& resp.call == call
                &&& resp.payload@ == padded(bytes)
            },
            Err(e) => after@ == self@ && r == Err::<Response, ServiceError>(e),
        }
    }

    fn ffa_msg_send_direct_req2(&mut self, msg: &DirectRequest) -> (r: Result<Response, ServiceError>) {
        let cmd = msg.payload.u8_at(0);
        if cmd == EC_THM_GET_TMP {
            Ok(self.get_temperature(msg))
        } else if cmd == EC_THM_SET_THRS {
            Ok(Response::reply(self.set_threshold(msg).into_payload()))
        } else if cmd == EC_THM_GET_THRS {
            Ok(Response::reply(self.get_threshold(msg).into_payload()))
        } else if cmd == EC_THM_SET_SCP {
            Ok(Response::reply(self.set_cooling_policy(msg).into_payload()))
        } else if cmd == EC_THM_GET_VAR {
            Ok(Response::reply(self.get_variable(msg).into_payload()))
        } else if cmd == EC_THM_SET_VAR {
            Ok(Response::reply(self.set_variable(msg).into_payload()))
        } else {
            Err(ServiceError::UnknownThermalCommand)
        }
    }
}

} // verus!
