//! UCSI Platform Policy Manager stub answering with fixed data for one connector.
//!
//! A request carries a doorbell tag byte followed by the 48-byte UCSI mailbox
//! (`VERSION@0`, `RESERVED@2`, `CCI@4`, `CONTROL@8` with the opcode at byte 0
//! and the connector number at byte 2, `MESSAGE IN@16`, `MESSAGE OUT@32`).
//! The answer is the updated mailbox at payload offset 0.
use vstd::prelude::*;
use vstd::bytes::*;
use crate::payload::{padded, Payload};
use crate::service::{DirectRequest, Response, Service, ServiceError};

verus! {

/// The UUID of the UCSI service, 65467f50-827f-4e4f-8770-dbf4c3f77f45.
pub const UCSI_UUID: u128 = 0x65467f50_827f_4e4f_8770_dbf4c3f77f45;

pub const MAILBOX_LEN: usize = 48;
/// The mailbox starts after the doorbell tag byte.
pub const MAILBOX_PAYLOAD_START: usize = 1;
pub const VERSION_OFFSET: usize = 0;
pub const CCI_OFFSET: usize = 4;
pub const CONTROL_OFFSET: usize = 8;
pub const MESSAGE_IN_OFFSET: usize = 16;

/// UCSI 1.2.
pub const VERSION: u16 = 0x0120;
/// The doorbell tag written at payload byte 0.
pub const DOORBELL: u8 = 0x00;
/// The only connector that is modelled.
pub const CONNECTOR_ONE: u8 = 1;

pub const OP_GET_CAPABILITY: u8 = 0x06;
pub const OP_GET_CONNECTOR_CAPABILITY: u8 = 0x07;
pub const OP_GET_CONNECTOR_STATUS: u8 = 0x12;

/// Command complete with 16 data bytes.
pub const CCI_CAPABILITY: u32 = 0x8000_1000;
/// Command complete with 2 data bytes.
pub const CCI_CONNECTOR_CAPABILITY: u32 = 0x8000_0200;
/// Command complete with 11 data bytes.
pub const CCI_CONNECTOR_STATUS: u32 = 0x8000_0B00;
/// Not supported, no data.
pub const CCI_NOT_SUPPORTED: u32 = 0x0200_0000;

/// MESSAGE IN of GET_CAPABILITY.
pub open spec fn capability_message_in() -> Seq<u8> {
    seq![0x46u8, 0x40, 0x00, 0x00, 0x01, 0x00, 0x00, 0x00, 0x00, 0x00, 0x20, 0x01, 0x00, 0x03, 0x00, 0x02]
}

/// MESSAGE IN of GET_CONNECTOR_CAPABILITY.
pub open spec fn connector_capability_message_in() -> Seq<u8> {
    seq![0x64u8, 0x03]
}

/// MESSAGE IN of GET_CONNECTOR_STATUS.
pub open spec fn connector_status_message_in() -> Seq<u8> {
    seq![0x00u8, 0x00, 0x29, 0x20, 0x00, 0x00, 0x00, 0x00, 0x00, 0x00, 0x00]
}

/// The MESSAGE IN bytes of GET_CAPABILITY.
pub fn capability_fixture() -> (r: Vec<u8>)
    ensures
        r@ == capability_message_in(),
{
    let r = vec![0x46u8, 0x40, 0x00, 0x00, 0x01, 0x00, 0x00, 0x00, 0x00, 0x00, 0x20, 0x01, 0x00, 0x03, 0x00, 0x02];
    assert(r@ =~= capability_message_in());
    r
}

/// The MESSAGE IN bytes of GET_CONNECTOR_CAPABILITY.
pub fn connector_capability_fixture() -> (r: Vec<u8>)
    ensures
        r@ == connector_capability_message_in(),
{
    let r = vec![0x64u8, 0x03];
    assert(r@ =~= connector_capability_message_in());
    r
}

/// The MESSAGE IN bytes of GET_CONNECTOR_STATUS.
pub fn connector_status_fixture() -> (r: Vec<u8>)
    ensures
        r@ == connector_status_message_in(),
{
    let r = vec![0x00u8, 0x00, 0x29, 0x20, 0x00, 0x00, 0x00, 0x00, 0x00, 0x00, 0x00];
    assert(r@ =~= connector_status_message_in());
    r
}

/// The CCI and MESSAGE IN answered to `opcode` for `connector`.
pub open spec fn ucsi_answer(opcode: u8, connector: u8) -> (u32, Seq<u8>) {
    if opcode == OP_GET_CAPABILITY {
        (CCI_CAPABILITY, capability_message_in())
    } else if opcode == OP_GET_CONNECTOR_CAPABILITY && connector == CONNECTOR_ONE {
        (CCI_CONNECTOR_CAPABILITY, connector_capability_message_in())
    } else if opcode == OP_GET_CONNECTOR_STATUS && connector == CONNECTOR_ONE {
        (CCI_CONNECTOR_STATUS, connector_status_message_in())
    } else {
        (CCI_NOT_SUPPORTED, Seq::empty())
    }
}

/// The mailbox answered for the 48-byte mailbox `m`: VERSION and CCI are
/// written, MESSAGE IN and MESSAGE OUT hold the answer's data followed by
/// zeros, RESERVED and CONTROL are kept.
pub open spec fn ucsi_mailbox_out(m: Seq<u8>) -> Seq<u8> {
    let cci = ucsi_answer(m[CONTROL_OFFSET as int], m[CONTROL_OFFSET + 2]).0;
    let data = ucsi_answer(m[CONTROL_OFFSET as int], m[CONTROL_OFFSET + 2]).1;
    Seq::new(
        MAILBOX_LEN as nat,
        |i: int|
            if i < 2 {
                spec_u16_to_le_bytes(VERSION)[i]
            } else if CCI_OFFSET <= i < CCI_OFFSET + 4 {
                spec_u32_to_le_bytes(cci)[i - CCI_OFFSET]
            } else if MESSAGE_IN_OFFSET <= i {
                if i - MESSAGE_IN_OFFSET < data.len() {
                    data[i - MESSAGE_IN_OFFSET]
                } else {
                    0u8
                }
            } else {
                m[i]
            },
    )
}

/// The answered mailbox carries VERSION and the CCI little-endian, echoes
/// RESERVED and CONTROL untouched, and holds the answer's data at MESSAGE IN
/// followed by zeros up to the end of MESSAGE OUT.
pub proof fn lemma_ucsi_mailbox_layout(m: Seq<u8>)
    requires
        m.len() == MAILBOX_LEN,
    ensures
        ucsi_mailbox_out(m).len() == MAILBOX_LEN,
        crate::payload::le_u16_at(ucsi_mailbox_out(m), VERSION_OFFSET as int) == VERSION,
        crate::payload::le_u32_at(ucsi_mailbox_out(m), CCI_OFFSET as int) == ucsi_answer(m[CONTROL_OFFSET as int], m[CONTROL_OFFSET + 2]).0,
        ucsi_mailbox_out(m).subrange(2, 4) == m.subrange(2, 4),
        ucsi_mailbox_out(m).subrange(CONTROL_OFFSET as int, MESSAGE_IN_OFFSET as int) == m.subrange(CONTROL_OFFSET as int, MESSAGE_IN_OFFSET as int),
        ({
            let data = ucsi_answer(m[CONTROL_OFFSET as int], m[CONTROL_OFFSET + 2]).1;
            &&& ucsi_mailbox_out(m).subrange(MESSAGE_IN_OFFSET as int, MESSAGE_IN_OFFSET + data.len()) == data
            &&& forall|i: int| MESSAGE_IN_OFFSET + data.len() <= i < MAILBOX_LEN ==> ucsi_mailbox_out(m)[i] == 0u8
        }),
{
    let out = ucsi_mailbox_out(m);
    let cci = ucsi_answer(m[CONTROL_OFFSET as int], m[CONTROL_OFFSET + 2]).0;
    let data = ucsi_answer(m[CONTROL_OFFSET as int], m[CONTROL_OFFSET + 2]).1;
    lemma_auto_spec_u16_to_from_le_bytes();
    lemma_auto_spec_u32_to_from_le_bytes();
    assert(out.subrange(0, 2) =~= spec_u16_to_le_bytes(VERSION));
    assert(out.subrange(4, 8) =~= spec_u32_to_le_bytes(cci));
    assert(out.subrange(2, 4) =~= m.subrange(2, 4));
    assert(out.subrange(8, 16) =~= m.subrange(8, 16));
    assert(out.subrange(16, 16 + data.len() as int) =~= data);
}

/// The answers to the three supported commands, byte for byte, as UCSI 1.2
/// lays them out. GET_CAPABILITY (any connector): CCI command complete with
/// 16 bytes, and MESSAGE IN bmAttributes 0x00004046 (battery charging, USB
/// PD, Type-C current, power source VBUS), one connector, no optional
/// features, no alternate modes, BCD versions 1.2, 3.0 and 2.0.
/// GET_CONNECTOR_CAPABILITY of connector 1: CCI with 2 bytes, operation mode
/// DRP, USB2 and USB3, provider and consumer. GET_CONNECTOR_STATUS of
/// connector 1: CCI with 11 bytes, no status change, connected (bit 19), USB
/// default power, sink, partner flag USB, partner type DFP attached. The rest
/// of MESSAGE IN and MESSAGE OUT is zero.
pub proof fn lemma_ucsi_answers(m: Seq<u8>)
    requires
        m.len() == 48,
    ensures
        m[8] == 0x06u8 ==> {
            &&& crate::payload::le_u32_at(ucsi_mailbox_out(m), 4) == 0x8000_1000u32
            &&& ucsi_mailbox_out(m).subrange(16, 32) == seq![
                0x46u8, 0x40u8, 0x00u8, 0x00u8, 0x01u8, 0x00u8, 0x00u8, 0x00u8,
                0x00u8, 0x00u8, 0x20u8, 0x01u8, 0x00u8, 0x03u8, 0x00u8, 0x02u8,
            ]
            &&& ucsi_mailbox_out(m)[24] == 0u8
            &&& forall|i: int| 32 <= i < 48 ==> ucsi_mailbox_out(m)[i] == 0u8
        },
        m[8] == 0x07u8 && m[10] == 1u8 ==> {
            &&& crate::payload::le_u32_at(ucsi_mailbox_out(m), 4) == 0x8000_0200u32
            &&& ucsi_mailbox_out(m).subrange(16, 18) == seq![0x64u8, 0x03u8]
            &&& forall|i: int| 18 <= i < 48 ==> ucsi_mailbox_out(m)[i] == 0u8
        },
        m[8] == 0x12u8 && m[10] == 1u8 ==> {
            &&& crate::payload::le_u32_at(ucsi_mailbox_out(m), 4) == 0x8000_0B00u32
            &&& ucsi_mailbox_out(m).subrange(16, 27) == seq![
                0x00u8, 0x00u8, 0x29u8, 0x20u8, 0x00u8, 0x00u8, 0x00u8, 0x00u8, 0x00u8, 0x00u8, 0x00u8,
            ]
            &&& forall|i: int| 27 <= i < 48 ==> ucsi_mailbox_out(m)[i] == 0u8
        },
        !(m[8] == 0x06u8 || (m[8] == 0x07u8 && m[10] == 1u8) || (m[8] == 0x12u8 && m[10] == 1u8)) ==> {
            &&& crate::payload::le_u32_at(ucsi_mailbox_out(m), 4) == 0x0200_0000u32
            &&& forall|i: int| 16 <= i < 48 ==> ucsi_mailbox_out(m)[i] == 0u8
        },
{
    lemma_ucsi_mailbox_layout(m);
    let out = ucsi_mailbox_out(m);
    if m[8] == 0x06u8 {
        assert(out.subrange(16, 32) =~= capability_message_in());
        assert(out[24] == out.subrange(16, 32)[8]);
    }
    if m[8] == 0x07u8 && m[10] == 1u8 {
        assert(out.subrange(16, 18) =~= connector_capability_message_in());
    }
    if m[8] == 0x12u8 && m[10] == 1u8 {
        assert(out.subrange(16, 27) =~= connector_status_message_in());
    }
}

/// The mailbox carried by a request payload.
pub open spec fn request_mailbox(p: Seq<u8>) -> Seq<u8> {
    p.subrange(MAILBOX_PAYLOAD_START as int, MAILBOX_PAYLOAD_START + MAILBOX_LEN)
}

/// The UCSI service. It holds no state.
#[derive(Default)]
pub struct Ucsi;

impl Ucsi {
    pub fn new() -> (r: Self) {
        Ucsi
    }

    /// The answer to `opcode` for `connector`.
    fn answer(opcode: u8, connector: u8) -> (r: (u32, Vec<u8>))
        ensures
            r.0 == ucsi_answer(opcode, connector).0,
            r.1@ == ucsi_answer(opcode, connector).1,
    {
        if opcode == OP_GET_CAPABILITY {
            (CCI_CAPABILITY, capability_fixture())
        } else if opcode == OP_GET_CONNECTOR_CAPABILITY && connector == CONNECTOR_ONE {
            (CCI_CONNECTOR_CAPABILITY, connector_capability_fixture())
        } else if opcode == OP_GET_CONNECTOR_STATUS && connector == CONNECTOR_ONE {
            (CCI_CONNECTOR_STATUS, connector_status_fixture())
        } else {
            (CCI_NOT_SUPPORTED, Vec::new())
        }
    }

    /// The mailbox answered for the mailbox of a request.
    pub fn respond_mailbox(mailbox_in: &[u8]) -> (r: Vec<u8>)
        requires
            mailbox_in@.len() == MAILBOX_LEN,
        ensures
            r@ == ucsi_mailbox_out(mailbox_in@),
    {
        let mut mailbox = vstd::slice::slice_to_vec(mailbox_in);
        let opcode = mailbox[CONTROL_OFFSET];
        let connector = mailbox[CONTROL_OFFSET + 2];
        let (cci, message_in) = Self::answer(opcode, connector);
        let ghost m = mailbox_in@;

        let version = u16_to_le_bytes(VERSION);
        mailbox.set(VERSION_OFFSET, version[0]);
        mailbox.set(VERSION_OFFSET + 1, version[1]);
        let cci_bytes = u32_to_le_bytes(cci);
        mailbox.set(CCI_OFFSET, cci_bytes[0]);
        mailbox.set(CCI_OFFSET + 1, cci_bytes[1]);
        mailbox.set(CCI_OFFSET + 2, cci_bytes[2]);
        mailbox.set(CCI_OFFSET + 3, cci_bytes[3]);

        let mut i: usize = MESSAGE_IN_OFFSET;
        while i < MAILBOX_LEN
            invariant
                MESSAGE_IN_OFFSET <= i <= MAILBOX_LEN,
                mailbox@.len() == MAILBOX_LEN,
                forall|k: int| MESSAGE_IN_OFFSET <= k < i ==> mailbox@[k] == 0u8,
                forall|k: int| 0 <= k < MESSAGE_IN_OFFSET ==> mailbox@[k] == (
                    if k < 2 {
                        spec_u16_to_le_bytes(VERSION)[k]
                    } else if CCI_OFFSET <= k < CCI_OFFSET + 4 {
                        spec_u32_to_le_bytes(cci)[k - CCI_OFFSET]
                    } else {
                        m[k]
                    }
                ),
            decreases MAILBOX_LEN - i,
        {
            mailbox.set(i, 0u8);
            i = i + 1;
        }

        let n = message_in.len();
        let mut j: usize = 0;
        while j < n
            invariant
                n == message_in@.len(),
                n <= MAILBOX_LEN - MESSAGE_IN_OFFSET,
                j <= n,
                mailbox@.len() == MAILBOX_LEN,
                forall|k: int| MESSAGE_IN_OFFSET <= k < MESSAGE_IN_OFFSET + j ==> mailbox@[k] == message_in@[k - MESSAGE_IN_OFFSET],
                forall|k: int| MESSAGE_IN_OFFSET + j <= k < MAILBOX_LEN ==> mailbox@[k] == 0u8,
                forall|k: int| 0 <= k < MESSAGE_IN_OFFSET ==> mailbox@[k] == (
                    if k < 2 {
                        spec_u16_to_le_bytes(VERSION)[k]
                    } else if CCI_OFFSET <= k < CCI_OFFSET + 4 {
                        spec_u32_to_le_bytes(cci)[k - CCI_OFFSET]
                    } else {
                        m[k]
                    }
                ),
            decreases n - j,
        {
            mailbox.set(MESSAGE_IN_OFFSET + j, message_in[j]);
            j = j + 1;
        }
        assert(mailbox@ =~= ucsi_mailbox_out(m));
        mailbox
    }
}

impl Service for Ucsi {
    const UUID: u128 = UCSI_UUID;

    const NAME: &'static str = "Ucsi";

    open spec fn handled(self, msg: DirectRequest, after: Self, r: Result<Response, ServiceError>) -> bool {
        if msg.payload@[0] != DOORBELL {
            r == Err::<Response, ServiceError>(ServiceError::UcsiUnexpectedDoorbell)
        } else {
            &&& r matches Ok(resp)
            &&& resp.call is None
            &&& resp.payload@ == padded(ucsi_mailbox_out(request_mailbox(msg.payload@)))
        }
    }

    fn ffa_msg_send_direct_req2(&mut self, msg: &DirectRequest) -> (r: Result<Response, ServiceError>) {
        let payload = &msg.payload;
        if payload.u8_at(0) != DOORBELL {
            return Err(ServiceError::UcsiUnexpectedDoorbell);
        }
        let mailbox_in = payload.slice(MAILBOX_PAYLOAD_START, MAILBOX_PAYLOAD_START + MAILBOX_LEN);
        let mailbox = Self::respond_mailbox(mailbox_in);
        Ok(Response::reply(Payload::from_bytes(mailbox.as_slice())))
    }
}

} // verus!
