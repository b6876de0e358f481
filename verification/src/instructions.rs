//! The two-variant operation request and its binary wire codec: a tag byte
//! (0 for `Mint`, 1 for `Mint2`) followed by the length-prefixed name and the
//! length-prefixed URL, each prefix a little-endian 32-bit byte count.

use vstd::prelude::*;

use crate::address::Address;
use crate::address::rent_sysvar_id;
use crate::address::rent_sysvar_address;
use crate::address::system_program_id;
use crate::address::system_program_address;
use crate::address::token_program_id;
use crate::address::token_program_address;
use crate::errors::GloweError;
use crate::errors::ProgramFault;
use crate::pda::clone_bytes;
use crate::pda::derive_mint_account_internal;
use crate::pda::derive_token_account_internal;
use crate::pda::spec_mint_pda;
use crate::pda::spec_token_pda;

verus! {

/// An operation request carried on the wire. `name` and `url` hold the
/// UTF-8 bytes of the request's display name and associated URL.
#[derive(Debug)]
pub enum GloweInstruction {
    /// Mint an NFT, creating the mint and token-holding accounts at their
    /// derived addresses.
    Mint { name: Vec<u8>, url: Vec<u8> },
    /// Mint an NFT into caller-supplied, pre-created accounts.
    Mint2 { name: Vec<u8>, url: Vec<u8> },
}

/// The mathematical model of an operation request.
pub enum InstructionModel {
    Mint { name: Seq<u8>, url: Seq<u8> },
    Mint2 { name: Seq<u8>, url: Seq<u8> },
}

impl View for GloweInstruction {
    type V = InstructionModel;

    open spec fn view(&self) -> InstructionModel {
        match self {
            GloweInstruction::Mint { name, url } => InstructionModel::Mint {
                name: name@,
                url: url@,
            },
            GloweInstruction::Mint2 { name, url } => InstructionModel::Mint2 {
                name: name@,
                url: url@,
            },
        }
    }
}

/// The tag byte of a request.
pub open spec fn model_tag(m: InstructionModel) -> u8 {
    match m {
        InstructionModel::Mint { .. } => 0,
        InstructionModel::Mint2 { .. } => 1,
    }
}

/// The name bytes of a request.
pub open spec fn model_name(m: InstructionModel) -> Seq<u8> {
    match m {
        InstructionModel::Mint { name, .. } => name,
        InstructionModel::Mint2 { name, .. } => name,
    }
}

/// The URL bytes of a request.
pub open spec fn model_url(m: InstructionModel) -> Seq<u8> {
    match m {
        InstructionModel::Mint { url, .. } => url,
        InstructionModel::Mint2 { url, .. } => url,
    }
}

/// A request is well formed when both strings are well-formed UTF-8 and fit
/// under a 32-bit length prefix.
pub open spec fn wf_model(m: InstructionModel) -> bool {
    &&& model_name(m).len() <= u32::MAX
    &&& model_url(m).len() <= u32::MAX
    &&& crate::utf8::spec_utf8(model_name(m))
    &&& crate::utf8::spec_utf8(model_url(m))
}

/// A length-prefixed byte string on the wire.
pub open spec fn spec_encode_bytes(b: Seq<u8>) -> Seq<u8> {
    vstd::bytes::spec_u32_to_le_bytes(b.len() as u32) + b
}

/// The wire encoding of a request.
pub open spec fn spec_encode(m: InstructionModel) -> Seq<u8> {
    seq![model_tag(m)] + spec_encode_bytes(model_name(m)) + spec_encode_bytes(model_url(m))
}

/// The layout of an encoded request: where the tag, the two length prefixes,
/// and the two byte strings fall inside the encoding.
pub proof fn lemma_encode_shape(m: InstructionModel)
    ensures
        spec_encode(m).len() == 9 + model_name(m).len() + model_url(m).len(),
        spec_encode(m)[0] == model_tag(m),
        spec_encode(m).subrange(1, 5) == vstd::bytes::spec_u32_to_le_bytes(
            model_name(m).len() as u32,
        ),
        spec_encode(m).subrange(5, 5 + model_name(m).len() as int) == model_name(m),
        spec_encode(m).subrange(
            5 + model_name(m).len() as int,
            9 + model_name(m).len() as int,
        ) == vstd::bytes::spec_u32_to_le_bytes(model_url(m).len() as u32),
        spec_encode(m).subrange(
            9 + model_name(m).len() as int,
            spec_encode(m).len() as int,
        ) == model_url(m),
{
    vstd::bytes::lemma_auto_spec_u32_to_from_le_bytes();
    let e = spec_encode(m);
    let name = model_name(m);
    let url = model_url(m);
    assert(e.len() == 9 + name.len() + url.len());
    assert(e.subrange(1, 5) =~= vstd::bytes::spec_u32_to_le_bytes(name.len() as u32));
    assert(e.subrange(5, 5 + name.len() as int) =~= name);
    assert(e.subrange(5 + name.len() as int, 9 + name.len() as int) =~= vstd::bytes::spec_u32_to_le_bytes(
        url.len() as u32,
    ));
    assert(e.subrange(9 + name.len() as int, e.len() as int) =~= url);
}

/// Two well-formed requests with the same encoding are the same request;
/// with the codec contracts this is the round-trip law: decoding an encoding
/// gives back exactly the request that was encoded.
pub proof fn lemma_encode_injective(m1: InstructionModel, m2: InstructionModel)
    requires
        wf_model(m1),
        wf_model(m2),
        spec_encode(m1) == spec_encode(m2),
    ensures
        m1 == m2,
{
    vstd::bytes::lemma_auto_spec_u32_to_from_le_bytes();
    lemma_encode_shape(m1);
    lemma_encode_shape(m2);
    assert(model_tag(m1) == model_tag(m2));
    assert(vstd::bytes::spec_u32_from_le_bytes(
        vstd::bytes::spec_u32_to_le_bytes(model_name(m1).len() as u32),
    ) == model_name(m1).len() as u32);
    assert(model_name(m1).len() == model_name(m2).len());
    assert(model_name(m1) == model_name(m2));
    assert(model_url(m1) == model_url(m2));
}

/// The wire form of one byte string: its 32-bit length then its bytes.
fn encode_bytes(b: &Vec<u8>) -> (r: Vec<u8>)
    requires
        b@.len() <= u32::MAX,
    ensures
        r@ == spec_encode_bytes(b@),
{
    proof {
        vstd::bytes::lemma_auto_spec_u32_to_from_le_bytes();
    }
    let len: u32 = b.len() as u32;
    let mut r = vstd::bytes::u32_to_le_bytes(len);
    let mut i: usize = 0;
    while i < b.len()
        invariant
            i <= b@.len(),
            b@.len() <= u32::MAX,
            r@ == vstd::bytes::spec_u32_to_le_bytes(b@.len() as u32) + b@.subrange(0, i as int),
        decreases b@.len() - i,
    {
        r.push(b[i]);
        proof {
            assert(b@.subrange(0, i as int).push(b@[i as int]) =~= b@.subrange(0, i + 1));
        }
        i += 1;
    }
    proof {
        assert(b@.subrange(0, b@.len() as int) =~= b@);
    }
    r
}

impl GloweInstruction {
    /// True when both strings of this request are well-formed UTF-8 and fit
    /// under a 32-bit length prefix.
    pub fn is_wf(&self) -> (r: bool)
        ensures
            r == wf_model(self@),
    {
        match self {
            GloweInstruction::Mint { name, url } => {
                name.len() <= u32::MAX as usize && url.len() <= u32::MAX as usize
                    && crate::utf8::is_utf8(name.as_slice()) && crate::utf8::is_utf8(
                    url.as_slice(),
                )
            },
            GloweInstruction::Mint2 { name, url } => {
                name.len() <= u32::MAX as usize && url.len() <= u32::MAX as usize
                    && crate::utf8::is_utf8(name.as_slice()) && crate::utf8::is_utf8(
                    url.as_slice(),
                )
            },
        }
    }

    /// Encodes this request into its wire form.
    pub fn encode(&self) -> (r: Vec<u8>)
        requires
            wf_model(self@),
        ensures
            r@ == spec_encode(self@),
    {
        let mut r: Vec<u8> = Vec::new();
        match self {
            GloweInstruction::Mint { name, url } => {
                r.push(0u8);
                let mut body = encode_bytes(name);
                r.append(&mut body);
                let mut tail = encode_bytes(url);
                r.append(&mut tail);
            },
            GloweInstruction::Mint2 { name, url } => {
                r.push(1u8);
                let mut body = encode_bytes(name);
                r.append(&mut body);
                let mut tail = encode_bytes(url);
                r.append(&mut tail);
            },
        }
        proof {
            assert(r@ =~= spec_encode(self@));
        }
        r
    }
}

/// Byte-for-byte equality of two byte strings.
fn bytes_eq(a: &Vec<u8>, b: &Vec<u8>) -> (r: bool)
    ensures
        r == (a@ == b@),
{
    if a.len() != b.len() {
        return false;
    }
    let mut i: usize = 0;
    while i < a.len()
        invariant
            i <= a@.len(),
            a@.len() == b@.len(),
            forall|j: int| 0 <= j < i ==> a@[j] == b@[j],
        decreases a@.len() - i,
    {
        if a[i] != b[i] {
            return false;
        }
        i += 1;
    }
    proof {
        assert(a@ =~= b@);
    }
    true
}

impl PartialEq for GloweInstruction {
    /// Two requests are equal when they have the same variant, name and URL.
    fn eq(&self, other: &GloweInstruction) -> (r: bool) {
        match (self, other) {
            (
                GloweInstruction::Mint { name: n1, url: u1 },
                GloweInstruction::Mint { name: n2, url: u2 },
            ) => bytes_eq(n1, n2) && bytes_eq(u1, u2),
            (
                GloweInstruction::Mint2 { name: n1, url: u1 },
                GloweInstruction::Mint2 { name: n2, url: u2 },
            ) => bytes_eq(n1, n2) && bytes_eq(u1, u2),
            _ => false,
        }
    }
}

impl vstd::std_specs::cmp::PartialEqSpecImpl for GloweInstruction {
    open spec fn obeys_eq_spec() -> bool {
        true
    }

    open spec fn eq_spec(&self, other: &GloweInstruction) -> bool {
        self@ == other@
    }
}

/// Reads one length-prefixed byte string of `data` starting at `start`.
fn decode_bytes(data: &[u8], start: usize) -> (r: Option<(Vec<u8>, usize)>)
    requires
        start <= data@.len(),
    ensures
        match r {
            Some(p) => {
                &&& p.0@.len() <= u32::MAX
                &&& p.1 == start + 4 + p.0@.len()
                &&& p.1 <= data@.len()
                &&& data@.subrange(start as int, start + 4) == vstd::bytes::spec_u32_to_le_bytes(
                    p.0@.len() as u32,
                )
                &&& data@.subrange(start + 4, p.1 as int) == p.0@
            },
            None => data@.len() < start + 4 || start + 4 + vstd::bytes::spec_u32_from_le_bytes(
                data@.subrange(start as int, start + 4),
            ) > data@.len(),
        },
{
    if data.len() - start < 4 {
        return None;
    }
    let prefix = vstd::slice::slice_subrange(data, start, start + 4);
    let len32 = vstd::bytes::u32_from_le_bytes(prefix);
    let len = len32 as usize;
    if data.len() - (start + 4) < len {
        return None;
    }
    let body = vstd::slice::slice_to_vec(vstd::slice::slice_subrange(
        data,
        start + 4,
        start + 4 + len,
    ));
    proof {
        vstd::bytes::lemma_auto_spec_u32_to_from_le_bytes();
        assert(data@.subrange(start as int, start + 4) =~= vstd::bytes::spec_u32_to_le_bytes(
            len32,
        ));
    }
    Some((body, start + 4 + len))
}

/// Decodes a wire message into the request it encodes. Returns
/// `InvalidInstruction` exactly when the bytes are not the encoding of any
/// well-formed request: truncated input, an unknown tag byte, a short byte
/// string, a string that is not well-formed UTF-8, or trailing bytes.
pub fn decode(data: &[u8]) -> (r: Result<GloweInstruction, GloweError>)
    ensures
        match r {
            Ok(i) => wf_model(i@) && data@ == spec_encode(i@),
            Err(e) => {
                &&& e == GloweError::InvalidInstruction
                &&& forall|m: InstructionModel| wf_model(m) ==> data@ != #[trigger] spec_encode(m)
            },
        },
{
    proof {
        vstd::bytes::lemma_auto_spec_u32_to_from_le_bytes();
    }
    if data.len() < 1 {
        proof {
            assert forall|m: InstructionModel| wf_model(m) implies data@ != #[trigger] spec_encode(
                m,
            ) by {
                lemma_encode_shape(m);
            }
        }
        return Err(GloweError::InvalidInstruction);
    }
    let tag = data[0];
    if tag >= 2 {
        proof {
            assert forall|m: InstructionModel| wf_model(m) implies data@ != #[trigger] spec_encode(
                m,
            ) by {
                lemma_encode_shape(m);
                if data@ == spec_encode(m) {
                    assert(data@[0] == model_tag(m));
                    assert(false);
                }
            }
        }
        return Err(GloweError::InvalidInstruction);
    }
    let parsed_name = decode_bytes(data, 1);
    let (name, url_start) = match parsed_name {
        Some(p) => p,
        None => {
            proof {
                assert forall|m: InstructionModel| wf_model(m) implies data@
                    != #[trigger] spec_encode(m) by {
                    lemma_encode_shape(m);
                    if data@ == spec_encode(m) {
                        assert(data@.subrange(1, 5) == vstd::bytes::spec_u32_to_le_bytes(
                            model_name(m).len() as u32,
                        ));
                        assert(vstd::bytes::spec_u32_from_le_bytes(data@.subrange(1, 5))
                            == model_name(m).len());
                        assert(false);
                    }
                }
            }
            return Err(GloweError::InvalidInstruction);
        },
    };
    if !crate::utf8::is_utf8(name.as_slice()) {
        proof {
            assert forall|m: InstructionModel| wf_model(m) implies data@ != #[trigger] spec_encode(
                m,
            ) by {
                lemma_encode_shape(m);
                if data@ == spec_encode(m) {
                    let n = model_name(m).len() as int;
                    assert(vstd::bytes::spec_u32_from_le_bytes(data@.subrange(1, 5))
                        == model_name(m).len());
                    assert(vstd::bytes::spec_u32_from_le_bytes(data@.subrange(1, 5))
                        == name@.len());
                    assert(data@.subrange(5, url_start as int) == model_name(m));
                    assert(model_name(m) == name@);
                    assert(false);
                }
            }
        }
        return Err(GloweError::InvalidInstruction);
    }
    let parsed_url = decode_bytes(data, url_start);
    let (url, end) = match parsed_url {
        Some(p) => p,
        None => {
            proof {
                assert forall|m: InstructionModel| wf_model(m) implies data@
                    != #[trigger] spec_encode(m) by {
                    lemma_encode_shape(m);
                    if data@ == spec_encode(m) {
                        let n = model_name(m).len() as int;
                        assert(vstd::bytes::spec_u32_from_le_bytes(data@.subrange(1, 5))
                            == model_name(m).len());
                        assert(vstd::bytes::spec_u32_from_le_bytes(data@.subrange(1, 5))
                            == name@.len());
                        assert(url_start == 5 + n);
                        assert(data@.subrange(url_start as int, url_start + 4)
                            == vstd::bytes::spec_u32_to_le_bytes(model_url(m).len() as u32));
                        assert(vstd::bytes::spec_u32_from_le_bytes(
                            data@.subrange(url_start as int, url_start + 4),
                        ) == model_url(m).len());
                        assert(false);
                    }
                }
            }
            return Err(GloweError::InvalidInstruction);
        },
    };
    if !crate::utf8::is_utf8(url.as_slice()) {
        proof {
            assert forall|m: InstructionModel| wf_model(m) implies data@ != #[trigger] spec_encode(
                m,
            ) by {
                lemma_encode_shape(m);
                if data@ == spec_encode(m) {
                    let n = model_name(m).len() as int;
                    assert(vstd::bytes::spec_u32_from_le_bytes(data@.subrange(1, 5))
                        == model_name(m).len());
                    assert(vstd::bytes::spec_u32_from_le_bytes(data@.subrange(1, 5))
                        == name@.len());
                    assert(url_start == 5 + n);
                    assert(data@.subrange(url_start as int, url_start + 4)
                        == vstd::bytes::spec_u32_to_le_bytes(model_url(m).len() as u32));
                    assert(vstd::bytes::spec_u32_from_le_bytes(
                        data@.subrange(url_start as int, url_start + 4),
                    ) == model_url(m).len());
                    assert(vstd::bytes::spec_u32_from_le_bytes(
                        data@.subrange(url_start as int, url_start + 4),
                    ) == url@.len());
                    assert(data@.subrange(url_start + 4, end as int) == model_url(m));
                    assert(model_url(m) == url@);
                    assert(false);
                }
            }
        }
        return Err(GloweError::InvalidInstruction);
    }
    if end != data.len() {
        proof {
            assert forall|m: InstructionModel| wf_model(m) implies data@ != #[trigger] spec_encode(
                m,
            ) by {
                lemma_encode_shape(m);
                if data@ == spec_encode(m) {
                    let n = model_name(m).len() as int;
                    assert(vstd::bytes::spec_u32_from_le_bytes(data@.subrange(1, 5))
                        == model_name(m).len());
                    assert(vstd::bytes::spec_u32_from_le_bytes(data@.subrange(1, 5))
                        == name@.len());
                    assert(url_start == 5 + n);
                    assert(data@.subrange(url_start as int, url_start + 4)
                        == vstd::bytes::spec_u32_to_le_bytes(model_url(m).len() as u32));
                    assert(vstd::bytes::spec_u32_from_le_bytes(
                        data@.subrange(url_start as int, url_start + 4),
                    ) == model_url(m).len());
                    assert(vstd::bytes::spec_u32_from_le_bytes(
                        data@.subrange(url_start as int, url_start + 4),
                    ) == url@.len());
                    assert(end == 9 + model_name(m).len() + model_url(m).len());
                    assert(false);
                }
            }
        }
        return Err(GloweError::InvalidInstruction);
    }
    let instr = if tag == 0 {
        GloweInstruction::Mint { name, url }
    } else {
        GloweInstruction::Mint2 { name, url }
    };
    proof {
        let m = instr@;
        lemma_encode_shape(m);
        let e = spec_encode(m);
        let n = name@.len() as int;
        let u = url@.len() as int;
        assert(model_name(m) == name@);
        assert(model_url(m) == url@);
        assert(model_tag(m) == tag);
        assert(e.len() == data@.len());
        assert forall|j: int| 0 <= j < data@.len() implies data@[j] == e[j] by {
            if j == 0 {
                assert(e[0] == model_tag(m));
            } else if j < 5 {
                assert(data@.subrange(1, 5)[j - 1] == data@[j]);
                assert(e.subrange(1, 5)[j - 1] == e[j]);
            } else if j < 5 + n {
                assert(data@.subrange(5, 5 + n)[j - 5] == data@[j]);
                assert(e.subrange(5, 5 + n)[j - 5] == e[j]);
            } else if j < 9 + n {
                assert(data@.subrange(5 + n, 9 + n)[j - 5 - n] == data@[j]);
                assert(e.subrange(5 + n, 9 + n)[j - 5 - n] == e[j]);
            } else {
                assert(data@.subrange(9 + n, data@.len() as int)[j - 9 - n] == data@[j]);
                assert(e.subrange(9 + n, e.len() as int)[j - 9 - n] == e[j]);
            }
        }
        assert(data@ =~= e);
    }
    Ok(instr)
}

/// One account reference inside a call descriptor: an address tagged with
/// whether it must sign and whether it may be written.
#[derive(Clone, Copy, Debug)]
pub struct AccountRef {
    pub address: Address,
    pub is_signer: bool,
    pub is_writable: bool,
}

/// A fully specified external-call envelope: the target program, the ordered
/// account references, and the encoded request body.
#[derive(Debug)]
pub struct CallDescriptor {
    pub program_id: Address,
    pub accounts: Vec<AccountRef>,
    pub data: Vec<u8>,
}

/// One account reference has this address and these two flags.
pub open spec fn spec_account_ref(a: AccountRef, address: Seq<u8>, signer: bool, writable: bool) -> bool {
    a.address@ == address && a.is_signer == signer && a.is_writable == writable
}

/// The descriptor the `Mint` builder assembles: the seven fixed account
/// references, both addresses freshly derived, and an encoded `Mint` body.
pub open spec fn spec_mint_descriptor(
    d: CallDescriptor,
    program_id: Seq<u8>,
    name: Seq<u8>,
    url: Seq<u8>,
    payer: Seq<u8>,
    owner: Seq<u8>,
) -> bool {
    spec_mint_pda(program_id, token_program_id(), payer, name) matches Some(mp) && (spec_token_pda(
        program_id,
        token_program_id(),
        payer,
        name,
        owner,
    ) matches Some(tp) && {
        &&& d.program_id@ == program_id
        &&& d.data@ == spec_encode(InstructionModel::Mint { name, url })
        &&& d.accounts@.len() == 7
        &&& spec_account_ref(d.accounts@[0], payer, true, true)
        &&& spec_account_ref(d.accounts@[1], owner, false, false)
        &&& spec_account_ref(d.accounts@[2], mp.0, false, true)
        &&& spec_account_ref(d.accounts@[3], tp.0, false, true)
        &&& spec_account_ref(d.accounts@[4], token_program_id(), false, false)
        &&& spec_account_ref(d.accounts@[5], system_program_id(), false, false)
        &&& spec_account_ref(d.accounts@[6], rent_sysvar_id(), false, false)
    })
}

/// The descriptor the `Mint2` builder assembles: the six fixed account
/// references around the caller-supplied mint and token-holding addresses,
/// and an encoded `Mint2` body.
pub open spec fn spec_mint2_descriptor(
    d: CallDescriptor,
    program_id: Seq<u8>,
    name: Seq<u8>,
    url: Seq<u8>,
    payer: Seq<u8>,
    owner: Seq<u8>,
    mint_addr: Seq<u8>,
    token_holder: Seq<u8>,
) -> bool {
    &&& d.program_id@ == program_id
    &&& d.data@ == spec_encode(InstructionModel::Mint2 { name, url })
    &&& d.accounts@.len() == 6
    &&& spec_account_ref(d.accounts@[0], payer, true, true)
    &&& spec_account_ref(d.accounts@[1], owner, false, false)
    &&& spec_account_ref(d.accounts@[2], mint_addr, false, true)
    &&& spec_account_ref(d.accounts@[3], token_holder, false, true)
    &&& spec_account_ref(d.accounts@[4], token_program_id(), false, false)
    &&& spec_account_ref(d.accounts@[5], rent_sysvar_id(), false, false)
}

/// Builds a `Mint` call descriptor: derives the mint and token-holding
/// addresses under `program_id` and lists the seven accounts the pipeline
/// expects. Fails only when no viable derived address exists.
pub fn mint(
    program_id: &Address,
    name: &Vec<u8>,
    url: &Vec<u8>,
    payer: &Address,
    owner: &Address,
) -> (r: Result<CallDescriptor, ProgramFault>)
    requires
        name@.len() <= u32::MAX,
        url@.len() <= u32::MAX,
        crate::utf8::spec_utf8(name@),
        crate::utf8::spec_utf8(url@),
    ensures
        match r {
            Ok(d) => spec_mint_descriptor(d, program_id@, name@, url@, payer@, owner@),
            Err(f) => f == ProgramFault::NoViableAddress && (spec_mint_pda(
                program_id@,
                token_program_id(),
                payer@,
                name@,
            ) is None || spec_token_pda(
                program_id@,
                token_program_id(),
                payer@,
                name@,
                owner@,
            ) is None),
        },
{
    let token_program = token_program_address();
    let mint_pda = match derive_mint_account_internal(program_id, &token_program, payer, name) {
        Some(p) => p.0,
        None => {
            return Err(ProgramFault::NoViableAddress);
        },
    };
    let token_pda = match derive_token_account_internal(
        program_id,
        &token_program,
        payer,
        name,
        owner,
    ) {
        Some(p) => p.0,
        None => {
            return Err(ProgramFault::NoViableAddress);
        },
    };
    let body = GloweInstruction::Mint { name: clone_bytes(name), url: clone_bytes(url) };
    let data = body.encode();
    let mut accounts: Vec<AccountRef> = Vec::new();
    accounts.push(AccountRef { address: *payer, is_signer: true, is_writable: true });
    accounts.push(AccountRef { address: *owner, is_signer: false, is_writable: false });
    accounts.push(AccountRef { address: mint_pda, is_signer: false, is_writable: true });
    accounts.push(AccountRef { address: token_pda, is_signer: false, is_writable: true });
    accounts.push(AccountRef { address: token_program, is_signer: false, is_writable: false });
    accounts.push(
        AccountRef { address: system_program_address(), is_signer: false, is_writable: false },
    );
    accounts.push(
        AccountRef { address: rent_sysvar_address(), is_signer: false, is_writable: false },
    );
    Ok(CallDescriptor { program_id: *program_id, accounts, data })
}

/// Builds a `Mint2` call descriptor around a caller-supplied mint and
/// token-holding account, which must already exist and be owned by the token
/// program; it lists the six accounts the pipeline expects.
pub fn mint2(
    program_id: &Address,
    name: &Vec<u8>,
    url: &Vec<u8>,
    payer: &Address,
    owner: &Address,
    mint_addr: &Address,
    token_holder: &Address,
) -> (r: Result<CallDescriptor, ProgramFault>)
    requires
        name@.len() <= u32::MAX,
        url@.len() <= u32::MAX,
        crate::utf8::spec_utf8(name@),
        crate::utf8::spec_utf8(url@),
    ensures
        r matches Ok(d) && spec_mint2_descriptor(
            d,
            program_id@,
            name@,
            url@,
            payer@,
            owner@,
            mint_addr@,
            token_holder@,
        ),
{
    let body = GloweInstruction::Mint2 { name: clone_bytes(name), url: clone_bytes(url) };
    let data = body.encode();
    let mut accounts: Vec<AccountRef> = Vec::new();
    accounts.push(AccountRef { address: *payer, is_signer: true, is_writable: true });
    accounts.push(AccountRef { address: *owner, is_signer: false, is_writable: false });
    accounts.push(AccountRef { address: *mint_addr, is_signer: false, is_writable: true });
    accounts.push(AccountRef { address: *token_holder, is_signer: false, is_writable: true });
    accounts.push(AccountRef { address: token_program_address(), is_signer: false, is_writable: false });
    accounts.push(
        AccountRef { address: rent_sysvar_address(), is_signer: false, is_writable: false },
    );
    Ok(CallDescriptor { program_id: *program_id, accounts, data })
}

} // verus!
