//! Network credentials and the fixed-layout payload that carries them during
//! provisioning.
//!
//! The payload is laid out as the radio delivers it: a 32-byte network name,
//! a 64-byte password, one byte that tells whether a hardware address
//! follows, and the six bytes of that address. A name or password shorter
//! than its field ends at the first zero byte. Anything after the fixed part
//! is auxiliary data and is not read.

use vstd::prelude::*;

verus! {

/// Width of the network-name field, and the longest name.
pub const SSID_CAPACITY: usize = 32;

/// Width of the password field, and the longest password.
pub const PASSWORD_CAPACITY: usize = 64;

/// Length of a hardware address.
pub const BSSID_LEN: usize = 6;

/// Offset of the byte that tells whether a hardware address is given.
pub const BSSID_FLAG_OFFSET: usize = 96;

/// Length of the fixed part of a payload.
pub const PAYLOAD_LEN: usize = 103;

/// Why a name and password cannot stand as credentials.
#[derive(Clone, Copy, Debug, PartialEq, Eq, Structural)]
pub enum CredentialError {
    /// The network name is longer than its field.
    SsidTooLong,
    /// The password is longer than its field.
    PasswordTooLong,
    /// The name or the password holds a zero byte, which would end it early.
    EmbeddedNul,
}

/// Why a payload cannot be decoded.
#[derive(Clone, Copy, Debug, PartialEq, Eq, Structural)]
pub enum DecodeError {
    /// The payload is shorter than its fixed part.
    Truncated,
    /// The byte that announces the hardware address is neither 0 nor 1.
    BadAddressFlag,
}

/// Credentials as plain values.
pub struct CredentialsView {
    pub ssid: Seq<u8>,
    pub password: Seq<u8>,
    pub bssid: Option<Seq<u8>>,
}

/// No byte of `text` is zero.
pub open spec fn no_nul(text: Seq<u8>) -> bool {
    forall|i: int| 0 <= i < text.len() ==> text[i] != 0
}

/// The bounds that every credential value keeps.
pub open spec fn valid_credentials(c: CredentialsView) -> bool {
    &&& c.ssid.len() <= SSID_CAPACITY
    &&& c.password.len() <= PASSWORD_CAPACITY
    &&& no_nul(c.ssid)
    &&& no_nul(c.password)
    &&& c.bssid matches Some(address) ==> address.len() == BSSID_LEN
}

/// Number of bytes of `field` before its first zero byte, or its whole
/// length where it holds none.
pub open spec fn text_len(field: Seq<u8>) -> nat
    decreases field.len(),
{
    if field.len() == 0 || field[0] == 0 {
        0
    } else {
        1 + text_len(field.drop_first())
    }
}

/// The text that a fixed-width field holds.
pub open spec fn field_text(field: Seq<u8>) -> Seq<u8> {
    field.take(text_len(field) as int)
}

/// `text` followed by zero bytes up to `width`.
pub open spec fn padded(text: Seq<u8>, width: nat) -> Seq<u8> {
    text + Seq::new((width - text.len()) as nat, |i: int| 0u8)
}

/// The address part of a payload: the flag byte and six address bytes.
pub open spec fn encoded_address(bssid: Option<Seq<u8>>) -> Seq<u8> {
    match bssid {
        Some(address) => seq![1u8] + address,
        None => seq![0u8] + Seq::new(BSSID_LEN as nat, |i: int| 0u8),
    }
}

/// The fixed part of the payload that carries `c`.
pub open spec fn encoded(c: CredentialsView) -> Seq<u8> {
    padded(c.ssid, SSID_CAPACITY as nat) + padded(c.password, PASSWORD_CAPACITY as nat)
        + encoded_address(c.bssid)
}

/// What a payload decodes to.
pub open spec fn decoded(payload: Seq<u8>) -> Result<CredentialsView, DecodeError> {
    if payload.len() < PAYLOAD_LEN {
        Err(DecodeError::Truncated)
    } else if payload[BSSID_FLAG_OFFSET as int] > 1 {
        Err(DecodeError::BadAddressFlag)
    } else {
        Ok(
            CredentialsView {
                ssid: field_text(payload.subrange(0, SSID_CAPACITY as int)),
                password: field_text(
                    payload.subrange(SSID_CAPACITY as int, BSSID_FLAG_OFFSET as int),
                ),
                bssid: if payload[BSSID_FLAG_OFFSET as int] == 1 {
                    Some(payload.subrange(BSSID_FLAG_OFFSET + 1, PAYLOAD_LEN as int))
                } else {
                    None
                },
            },
        )
    }
}

/// What `NetworkCredentials::new` answers for a name and a password.
pub open spec fn checked(ssid: Seq<u8>, password: Seq<u8>) -> Result<(), CredentialError> {
    if ssid.len() > SSID_CAPACITY {
        Err(CredentialError::SsidTooLong)
    } else if password.len() > PASSWORD_CAPACITY {
        Err(CredentialError::PasswordTooLong)
    } else if !no_nul(ssid) || !no_nul(password) {
        Err(CredentialError::EmbeddedNul)
    } else {
        Ok(())
    }
}

/// The name, password and optional hardware address of one network.
///
/// A value never changes once made, and always keeps `valid_credentials`.
#[derive(Debug, PartialEq, Eq)]
pub struct NetworkCredentials {
    ssid: Vec<u8>,
    password: Vec<u8>,
    bssid: Option<[u8; 6]>,
}

impl View for NetworkCredentials {
    type V = CredentialsView;

    closed spec fn view(&self) -> CredentialsView {
        CredentialsView {
            ssid: self.ssid@,
            password: self.password@,
            bssid: match self.bssid {
                Some(address) => Some(address@),
                None => None,
            },
        }
    }
}

impl NetworkCredentials {
    #[verifier::type_invariant]
    spec fn holds_bounds(&self) -> bool {
        valid_credentials(self@)
    }

    /// Credentials for the network `ssid`, refused where a part would not
    /// fit its field or would be cut short by a zero byte.
    pub fn new(ssid: &[u8], password: &[u8], bssid: Option<[u8; 6]>) -> (made: Result<
        NetworkCredentials,
        CredentialError,
    >)
        ensures
            match made {
                Ok(c) => {
                    &&& checked(ssid@, password@) is Ok
                    &&& c@.ssid == ssid@
                    &&& c@.password == password@
                    &&& c@.bssid == match bssid {
                        Some(address) => Some(address@),
                        None => None,
                    }
                    &&& valid_credentials(c@)
                },
                Err(e) => checked(ssid@, password@) == Err::<(), CredentialError>(e),
            },
    {
        if ssid.len() > SSID_CAPACITY {
            return Err(CredentialError::SsidTooLong);
        }
        if password.len() > PASSWORD_CAPACITY {
            return Err(CredentialError::PasswordTooLong);
        }
        if has_nul(ssid) || has_nul(password) {
            return Err(CredentialError::EmbeddedNul);
        }
        let made = NetworkCredentials {
            ssid: copy_bytes(ssid),
            password: copy_bytes(password),
            bssid,
        };
        Ok(made)
    }

    /// The network name.
    pub fn ssid(&self) -> (ssid: &Vec<u8>)
        ensures
            ssid@ == self@.ssid,
            ssid@.len() <= SSID_CAPACITY,
            no_nul(ssid@),
    {
        proof {
            use_type_invariant(self);
        }
        &self.ssid
    }

    /// The password.
    pub fn password(&self) -> (password: &Vec<u8>)
        ensures
            password@ == self@.password,
            password@.len() <= PASSWORD_CAPACITY,
            no_nul(password@),
    {
        proof {
            use_type_invariant(self);
        }
        &self.password
    }

    /// The hardware address of the access point, where one is given.
    pub fn bssid(&self) -> (bssid: Option<[u8; 6]>)
        ensures
            self@.bssid == match bssid {
                Some(address) => Some(address@),
                None => None,
            },
    {
        self.bssid
    }

    /// Whether a network is named at all.
    pub fn has_ssid(&self) -> (named: bool)
        ensures
            named == (self@.ssid.len() > 0),
    {
        self.ssid.len() > 0
    }

    /// A copy of these credentials.
    pub fn duplicate(&self) -> (copy: NetworkCredentials)
        ensures
            copy@ == self@,
    {
        proof {
            use_type_invariant(self);
        }
        let copy = NetworkCredentials {
            ssid: copy_bytes(self.ssid.as_slice()),
            password: copy_bytes(self.password.as_slice()),
            bssid: self.bssid,
        };
        copy
    }

    /// The fixed part of the payload that carries these credentials.
    pub fn encode(&self) -> (payload: Vec<u8>)
        ensures
            payload@ == encoded(self@),
            payload@.len() == PAYLOAD_LEN,
    {
        proof {
            use_type_invariant(self);
        }
        let mut payload: Vec<u8> = Vec::new();
        push_padded(&mut payload, &self.ssid, SSID_CAPACITY);
        push_padded(&mut payload, &self.password, PASSWORD_CAPACITY);
        match self.bssid {
            Some(address) => {
                payload.push(1);
                let mut k: usize = 0;
                while k < BSSID_LEN
                    invariant
                        k <= BSSID_LEN,
                        payload@ == padded(self@.ssid, SSID_CAPACITY as nat) + padded(
                            self@.password,
                            PASSWORD_CAPACITY as nat,
                        ) + (seq![1u8] + address@.take(k as int)),
                    decreases BSSID_LEN - k,
                {
                    payload.push(address[k]);
                    k += 1;
                }
                assert(address@.take(BSSID_LEN as int) == address@);
            },
            None => {
                payload.push(0);
                let mut k: usize = 0;
                while k < BSSID_LEN
                    invariant
                        k <= BSSID_LEN,
                        payload@ == padded(self@.ssid, SSID_CAPACITY as nat) + padded(
                            self@.password,
                            PASSWORD_CAPACITY as nat,
                        ) + (seq![0u8] + Seq::new(k as nat, |i: int| 0u8)),
                    decreases BSSID_LEN - k,
                {
                    payload.push(0);
                    k += 1;
                }
            },
        }
        payload
    }
}

/// Decodes the credentials that a provisioning payload carries.
///
/// Nothing beyond the fixed part is read, and nothing is read at all from a
/// payload that is shorter than it.
pub fn decode_credentials(payload: &[u8]) -> (outcome: Result<NetworkCredentials, DecodeError>)
    ensures
        match outcome {
            Ok(c) => decoded(payload@) == Ok::<CredentialsView, DecodeError>(c@),
            Err(e) => decoded(payload@) == Err::<CredentialsView, DecodeError>(e),
        },
{
    if payload.len() < PAYLOAD_LEN {
        return Err(DecodeError::Truncated);
    }
    let flag: u8 = payload[BSSID_FLAG_OFFSET];
    if flag > 1 {
        return Err(DecodeError::BadAddressFlag);
    }
    let ssid = copy_text(payload, 0, SSID_CAPACITY);
    let password = copy_text(payload, SSID_CAPACITY, PASSWORD_CAPACITY);
    let bssid: Option<[u8; 6]> = if flag == 1 {
        let address: [u8; 6] = [
            payload[97],
            payload[98],
            payload[99],
            payload[100],
            payload[101],
            payload[102],
        ];
        assert(address@ == payload@.subrange(BSSID_FLAG_OFFSET + 1, PAYLOAD_LEN as int));
        Some(address)
    } else {
        None
    };
    assert(payload@.subrange(0, 0 + SSID_CAPACITY) == payload@.subrange(0, SSID_CAPACITY as int));
    assert(payload@.subrange(SSID_CAPACITY as int, SSID_CAPACITY + PASSWORD_CAPACITY)
        == payload@.subrange(SSID_CAPACITY as int, BSSID_FLAG_OFFSET as int));
    let made = NetworkCredentials { ssid, password, bssid };
    Ok(made)
}

/// Whether `bytes` holds a zero byte.
fn has_nul(bytes: &[u8]) -> (found: bool)
    ensures
        found == !no_nul(bytes@),
{
    let mut i: usize = 0;
    while i < bytes.len()
        invariant
            i <= bytes.len(),
            forall|j: int| 0 <= j < i ==> bytes@[j] != 0,
        decreases bytes.len() - i,
    {
        if bytes[i] == 0 {
            return true;
        }
        i += 1;
    }
    false
}

/// The bytes of `bytes` in a vector of their own.
fn copy_bytes(bytes: &[u8]) -> (copy: Vec<u8>)
    ensures
        copy@ == bytes@,
{
    let mut copy: Vec<u8> = Vec::new();
    let mut i: usize = 0;
    while i < bytes.len()
        invariant
            i <= bytes.len(),
            copy@ == bytes@.take(i as int),
        decreases bytes.len() - i,
    {
        copy.push(bytes[i]);
        i += 1;
    }
    assert(bytes@.take(bytes.len() as int) == bytes@);
    copy
}

/// The text of the field of `width` bytes that begins at `start`.
fn copy_text(payload: &[u8], start: usize, width: usize) -> (text: Vec<u8>)
    requires
        start + width <= payload.len(),
    ensures
        text@ == field_text(payload@.subrange(start as int, start + width)),
        text@.len() <= width,
        no_nul(text@),
{
    let ghost field = payload@.subrange(start as int, start + width);
    let mut text: Vec<u8> = Vec::new();
    let mut i: usize = 0;
    while i < width && payload[start + i] != 0
        invariant
            i <= width,
            start + width <= payload.len(),
            field == payload@.subrange(start as int, start + width),
            text@ == field.take(i as int),
            forall|j: int| 0 <= j < i ==> field[j] != 0,
        decreases width - i,
    {
        text.push(payload[start + i]);
        i += 1;
    }
    proof {
        lemma_text_len(field, i as nat);
    }
    text
}

/// Appends `text` and the zero bytes that fill its field of `width` bytes.
fn push_padded(out: &mut Vec<u8>, text: &Vec<u8>, width: usize)
    requires
        text.len() <= width,
    ensures
        final(out)@ == old(out)@ + padded(text@, width as nat),
{
    let ghost before = out@;
    let mut i: usize = 0;
    while i < text.len()
        invariant
            i <= text.len(),
            out@ == before + text@.take(i as int),
        decreases text.len() - i,
    {
        out.push(text[i]);
        i += 1;
    }
    assert(text@.take(text.len() as int) == text@);
    while i < width
        invariant
            text.len() <= i <= width,
            out@ == before + (text@ + Seq::new((i - text.len()) as nat, |k: int| 0u8)),
        decreases width - i,
    {
        out.push(0);
        i += 1;
    }
}

/// A field whose first `n` bytes are not zero, and which ends there or goes
/// on with a zero byte, holds a text of `n` bytes.
pub proof fn lemma_text_len(field: Seq<u8>, n: nat)
    requires
        n <= field.len(),
        forall|j: int| 0 <= j < n ==> field[j] != 0,
        n == field.len() || field[n as int] == 0,
    ensures
        text_len(field) == n,
    decreases n,
{
    if n > 0 {
        let rest = field.drop_first();
        assert forall|j: int| 0 <= j < n - 1 implies rest[j] != 0 by {
            assert(rest[j] == field[j + 1]);
        }
        lemma_text_len(rest, (n - 1) as nat);
    }
}

/// A text that fits its field and holds no zero byte is read back from the
/// padded field as it was written.
pub proof fn lemma_padded_text(text: Seq<u8>, width: nat)
    requires
        text.len() <= width,
        no_nul(text),
    ensures
        padded(text, width).len() == width,
        field_text(padded(text, width)) == text,
{
    let field = padded(text, width);
    lemma_text_len(field, text.len());
    assert(field.take(text.len() as int) == text);
}

/// Decoding what was encoded gives the credentials back unchanged, up to
/// the longest name and password that the fields can hold.
pub proof fn lemma_decode_encode(c: CredentialsView)
    requires
        valid_credentials(c),
    ensures
        encoded(c).len() == PAYLOAD_LEN,
        decoded(encoded(c)) == Ok::<CredentialsView, DecodeError>(c),
{
    let name = padded(c.ssid, SSID_CAPACITY as nat);
    let secret = padded(c.password, PASSWORD_CAPACITY as nat);
    let tail = encoded_address(c.bssid);
    let payload = encoded(c);
    lemma_padded_text(c.ssid, SSID_CAPACITY as nat);
    lemma_padded_text(c.password, PASSWORD_CAPACITY as nat);
    assert(tail.len() == 1 + BSSID_LEN);
    assert(payload.subrange(0, SSID_CAPACITY as int) == name);
    assert(payload.subrange(SSID_CAPACITY as int, BSSID_FLAG_OFFSET as int) == secret);
    assert(payload[BSSID_FLAG_OFFSET as int] == tail[0]);
    match c.bssid {
        Some(address) => {
            assert(payload.subrange(BSSID_FLAG_OFFSET + 1, PAYLOAD_LEN as int) == address);
        },
        None => {},
    }
}

/// A payload shorter than its fixed part is never decoded, whatever it
/// holds.
pub proof fn lemma_short_payload_is_refused(payload: Seq<u8>)
    requires
        payload.len() < PAYLOAD_LEN,
    ensures
        decoded(payload) == Err::<CredentialsView, DecodeError>(DecodeError::Truncated),
{
}

} // verus!
