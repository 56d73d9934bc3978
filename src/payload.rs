use vstd::prelude::*;

verus! {

/// One store of a 16-bit word to a bus address.
#[derive(Clone, Copy, Debug, PartialEq, Eq, Structural)]
pub struct BusWrite {
    pub address: usize,
    pub value: u16,
}

/// One command or data payload, by the shape in which it was handed over.
///
/// The lazily produced shapes (`*Iter`) hold their elements in the order in
/// which they were produced. `Unsupported` stands for any other shape.
pub enum Payload {
    /// Unsigned bytes
    U8(Vec<u8>),
    /// 16-bit values in the byte order of the system
    U16(Vec<u16>),
    /// 16-bit values tagged big endian
    U16BE(Vec<u16>),
    /// 16-bit values tagged little endian
    U16LE(Vec<u16>),
    /// Lazily produced unsigned bytes
    U8Iter(Vec<u8>),
    /// Lazily produced 16-bit values tagged big endian
    U16BEIter(Vec<u16>),
    /// Lazily produced 16-bit values tagged little endian
    U16LEIter(Vec<u16>),
    /// A payload shape this interface does not implement
    Unsupported,
}

/// Why a payload was refused.
#[derive(Clone, Copy, Debug, PartialEq, Eq, Structural)]
pub enum DispatchError {
    /// The payload's shape is not implemented by this interface
    DataFormatNotImplemented,
}

/// Each byte widened to 16 bits with zeros above it.
pub open spec fn zero_extended(bytes: Seq<u8>) -> Seq<u16> {
    bytes.map_values(|b: u8| b as u16)
}

/// The 16-bit words a payload puts on the bus, in order; `None` for a shape
/// that is not implemented.
///
/// Bytes are zero-extended. 16-bit values are passed on as they are, whatever
/// byte order they are tagged with.
pub open spec fn payload_words(p: Payload) -> Option<Seq<u16>> {
    match p {
        Payload::U8(b) => Some(zero_extended(b@)),
        Payload::U16(w) => Some(w@),
        Payload::U16BE(w) => Some(w@),
        Payload::U16LE(w) => Some(w@),
        Payload::U8Iter(b) => Some(zero_extended(b@)),
        Payload::U16BEIter(w) => Some(w@),
        Payload::U16LEIter(w) => Some(w@),
        Payload::Unsupported => None,
    }
}

/// One store to `address` for each word, in the order of the words.
pub open spec fn stores_at(address: usize, words: Seq<u16>) -> Seq<BusWrite> {
    words.map_values(|w: u16| BusWrite { address, value: w })
}

/// `r` is the outcome of sending payload `p` to `address`: every word of the
/// payload stored there in order, or the payload refused with nothing stored.
pub open spec fn dispatched(
    address: usize,
    p: Payload,
    r: Result<Vec<BusWrite>, DispatchError>,
) -> bool {
    match payload_words(p) {
        Some(words) => r is Ok && r->Ok_0@ == stores_at(address, words),
        None => r == Err::<Vec<BusWrite>, DispatchError>(DispatchError::DataFormatNotImplemented),
    }
}

/// Bytes sent to an address become, in order, one store each to that
/// address, zero-extended to 16 bits.
pub proof fn lemma_bytes_zero_extended(
    address: usize,
    bytes: Vec<u8>,
    r: Result<Vec<BusWrite>, DispatchError>,
)
    requires
        dispatched(address, Payload::U8(bytes), r) || dispatched(
            address,
            Payload::U8Iter(bytes),
            r,
        ),
    ensures
        r is Ok,
        r->Ok_0@.len() == bytes@.len(),
        forall|i: int|
            0 <= i < bytes@.len() ==> #[trigger] r->Ok_0@[i] == (BusWrite {
                address,
                value: bytes@[i] as u16,
            }),
{
}

/// 16-bit values sent to an address become, in order, one store each of the
/// same value to that address, whichever byte order they are tagged with.
pub proof fn lemma_words_unchanged(
    address: usize,
    words: Vec<u16>,
    r: Result<Vec<BusWrite>, DispatchError>,
)
    requires
        dispatched(address, Payload::U16(words), r) || dispatched(address, Payload::U16BE(words), r)
            || dispatched(address, Payload::U16LE(words), r) || dispatched(
            address,
            Payload::U16BEIter(words),
            r,
        ) || dispatched(address, Payload::U16LEIter(words), r),
    ensures
        r is Ok,
        r->Ok_0@.len() == words@.len(),
        forall|i: int|
            0 <= i < words@.len() ==> #[trigger] r->Ok_0@[i] == (BusWrite {
                address,
                value: words@[i],
            }),
{
}

/// A payload of a shape that is not implemented is refused, and no store is
/// made for it.
pub proof fn lemma_unsupported_refused(address: usize, r: Result<Vec<BusWrite>, DispatchError>)
    requires
        dispatched(address, Payload::Unsupported, r),
    ensures
        r == Err::<Vec<BusWrite>, DispatchError>(DispatchError::DataFormatNotImplemented),
{
}

/// One store to `address` for each byte, zero-extended, in order.
fn byte_stores(address: usize, items: &Vec<u8>) -> (r: Vec<BusWrite>)
    ensures
        r@ == stores_at(address, zero_extended(items@)),
{
    let mut r: Vec<BusWrite> = Vec::new();
    let mut i: usize = 0;
    while i < items.len()
        invariant
            i <= items.len(),
            r@.len() == i,
            forall|k: int| 0 <= k < i ==> #[trigger] r@[k] == (BusWrite { address, value: items@[k] as u16 }),
        decreases items.len() - i,
    {
        r.push(BusWrite { address, value: items[i] as u16 });
        i += 1;
    }
    assert(r@ =~= stores_at(address, zero_extended(items@)));
    r
}

/// One store to `address` for each word, in order.
fn word_stores(address: usize, items: &Vec<u16>) -> (r: Vec<BusWrite>)
    ensures
        r@ == stores_at(address, items@),
{
    let mut r: Vec<BusWrite> = Vec::new();
    let mut i: usize = 0;
    while i < items.len()
        invariant
            i <= items.len(),
            r@.len() == i,
            forall|k: int| 0 <= k < i ==> #[trigger] r@[k] == (BusWrite { address, value: items@[k] }),
        decreases items.len() - i,
    {
        r.push(BusWrite { address, value: items[i] });
        i += 1;
    }
    assert(r@ =~= stores_at(address, items@));
    r
}

/// Turns a payload into the stores that carry it to `address`.
pub(crate) fn dispatch(address: usize, p: &Payload) -> (r: Result<Vec<BusWrite>, DispatchError>)
    ensures
        dispatched(address, *p, r),
{
    match p {
        Payload::U8(items) => Ok(byte_stores(address, items)),
        Payload::U16(items) => Ok(word_stores(address, items)),
        Payload::U16BE(items) => Ok(word_stores(address, items)),
        Payload::U16LE(items) => Ok(word_stores(address, items)),
        Payload::U8Iter(items) => Ok(byte_stores(address, items)),
        Payload::U16BEIter(items) => Ok(word_stores(address, items)),
        Payload::U16LEIter(items) => Ok(word_stores(address, items)),
        Payload::Unsupported => Err(DispatchError::DataFormatNotImplemented),
    }
}

} // verus!
