//! Asset metadata and its binary encoding.
//!
//! Every mint, transfer, wrap and unwrap request carries an `AssetData`
//! value: the (name, symbol, decimals) tuple the contracts store per token.
//! The tuple travels on the wire in a self-describing binary layout: each
//! string is a 32-byte big-endian length word followed by its UTF-8 bytes,
//! zero-padded up to a multiple of the 32-byte word size, and `decimals` is
//! one 32-byte big-endian word.  A batch payload is the concatenation of the
//! per-element encodings, with no extra delimiter.

use vstd::prelude::*;
use vstd::string::*;
use vstd::utf8::*;

verus! {

/// Per-asset metadata attached to every request.
#[derive(Debug, Clone, PartialEq)]
pub struct AssetData {
    pub name: String,
    pub symbol: String,
    pub decimals: u64,
}

/// The mathematical value of an [`AssetData`]: the two texts as character
/// sequences, and the decimals word.
#[verifier::ext_equal]
pub struct AssetDataView {
    pub name: Seq<char>,
    pub symbol: Seq<char>,
    pub decimals: u64,
}

impl View for AssetData {
    type V = AssetDataView;

    open spec fn view(&self) -> AssetDataView {
        AssetDataView { name: self.name@, symbol: self.symbol@, decimals: self.decimals }
    }
}

/// A mint request: credit `amount` units of token `id` to `account`.
#[derive(Debug, Clone, PartialEq)]
pub struct AssetMint {
    pub account: String,
    pub amount: u64,
    pub id: u64,
    pub data: AssetData,
}

/// A transfer request for one token id.
#[derive(Debug, Clone, PartialEq)]
pub struct AssetTransfer {
    pub from: String,
    pub to: String,
    pub amount: u64,
    pub id: u64,
    pub data: AssetData,
}

/// A batch transfer: position `i` of `amounts`, `ids` and `data` describes
/// one transfer leg.
#[derive(Debug, Clone, PartialEq)]
pub struct AssetBatchTransfer {
    pub from: String,
    pub to: String,
    pub amounts: Vec<u64>,
    pub ids: Vec<u64>,
    pub data: Vec<AssetData>,
}

/// The mathematical value of an [`AssetMint`].
#[verifier::ext_equal]
pub struct AssetMintView {
    pub account: Seq<char>,
    pub amount: u64,
    pub id: u64,
    pub data: AssetDataView,
}

impl View for AssetMint {
    type V = AssetMintView;

    open spec fn view(&self) -> AssetMintView {
        AssetMintView {
            account: self.account@,
            amount: self.amount,
            id: self.id,
            data: self.data@,
        }
    }
}

/// The mathematical value of an [`AssetTransfer`].
#[verifier::ext_equal]
pub struct AssetTransferView {
    pub from: Seq<char>,
    pub to: Seq<char>,
    pub amount: u64,
    pub id: u64,
    pub data: AssetDataView,
}

impl View for AssetTransfer {
    type V = AssetTransferView;

    open spec fn view(&self) -> AssetTransferView {
        AssetTransferView {
            from: self.from@,
            to: self.to@,
            amount: self.amount,
            id: self.id,
            data: self.data@,
        }
    }
}

/// The mathematical value of an [`AssetBatchTransfer`].
#[verifier::ext_equal]
pub struct AssetBatchTransferView {
    pub from: Seq<char>,
    pub to: Seq<char>,
    pub amounts: Seq<u64>,
    pub ids: Seq<u64>,
    pub data: Seq<AssetDataView>,
}

impl View for AssetBatchTransfer {
    type V = AssetBatchTransferView;

    open spec fn view(&self) -> AssetBatchTransferView {
        AssetBatchTransferView {
            from: self.from@,
            to: self.to@,
            amounts: self.amounts@,
            ids: self.ids@,
            data: views_of(self.data@),
        }
    }
}

/// Byte `i` of the 32-byte big-endian word for `v`.
pub open spec fn word_byte(v: u64, i: int) -> u8 {
    if i < 24 {
        0u8
    } else {
        (((v >> ((8 * (31 - i)) as u64)) & 0xff) as u8)
    }
}

/// The 32-byte big-endian word for `v`.
pub open spec fn be_word(v: u64) -> Seq<u8> {
    Seq::new(32, |i: int| word_byte(v, i))
}

/// How many zero bytes pad a segment of `n` content bytes up to a whole
/// number of 32-byte words.
pub open spec fn seg_pad(n: nat) -> nat {
    if n % 32 == 0 {
        0nat
    } else {
        (32 - n % 32) as nat
    }
}

/// `n` zero bytes.
pub open spec fn zero_bytes(n: nat) -> Seq<u8> {
    Seq::new(n, |i: int| 0u8)
}

/// One encoded string segment: length word, content, zero padding.
pub open spec fn encoded_segment(bs: Seq<u8>) -> Seq<u8> {
    be_word(bs.len() as u64) + bs + zero_bytes(seg_pad(bs.len()))
}

/// The encoded form of one metadata tuple: name segment, symbol segment,
/// decimals word.
pub open spec fn encoded_metadata(m: AssetDataView) -> Seq<u8> {
    encoded_segment(encode_utf8(m.name)) + encoded_segment(encode_utf8(m.symbol)) + be_word(
        m.decimals,
    )
}

/// The encoded form of a batch: the per-element encodings in input order.
pub open spec fn encoded_batch(ms: Seq<AssetDataView>) -> Seq<u8>
    decreases ms.len(),
{
    if ms.len() == 0 {
        Seq::<u8>::empty()
    } else {
        encoded_metadata(ms[0]) + encoded_batch(ms.drop_first())
    }
}

/// The views of a sequence of metadata values.
pub open spec fn views_of(data: Seq<AssetData>) -> Seq<AssetDataView> {
    data.map_values(|d: AssetData| d@)
}

/// Appends the 32-byte big-endian word for `v` to `out`.
pub(crate) fn push_be_word(out: &mut Vec<u8>, v: u64)
    ensures
        final(out)@ == old(out)@ + be_word(v),
{
    let mut i: usize = 0;
    while i < 32
        invariant
            i <= 32,
            out@ == old(out)@ + be_word(v).take(i as int),
        decreases 32 - i,
    {
        let b: u8 = if i < 24 {
            0
        } else {
            let sh: u64 = (8 * (31 - i)) as u64;
            proof {
                assert((v >> sh) & 0xff < 256) by (bit_vector);
            }
            ((v >> sh) & 0xff) as u8
        };
        assert(b == word_byte(v, i as int));
        out.push(b);
        proof {
            assert(be_word(v).take(i + 1) =~= be_word(v).take(i as int).push(
                word_byte(v, i as int),
            ));
        }
        i = i + 1;
    }
    proof {
        assert(be_word(v).take(32) =~= be_word(v));
    }
}

/// Appends one encoded string segment for `s` to `out`.
fn push_data_segment(out: &mut Vec<u8>, s: &str)
    ensures
        final(out)@ == old(out)@ + encoded_segment(s.spec_bytes()),
{
    let bytes: Vec<u8> = s.as_bytes_vec();
    push_be_word(out, bytes.len() as u64);
    out.extend_from_slice(bytes.as_slice());
    let rem = bytes.len() % 32;
    if rem != 0 {
        let mut k: usize = rem;
        while k < 32
            invariant
                rem == bytes@.len() % 32,
                rem != 0,
                rem <= k <= 32,
                out@ == old(out)@ + be_word(bytes@.len() as u64) + bytes@ + zero_bytes(
                    (k - rem) as nat,
                ),
            decreases 32 - k,
        {
            out.push(0);
            proof {
                assert(zero_bytes((k + 1 - rem) as nat) =~= zero_bytes((k - rem) as nat).push(0u8));
            }
            k = k + 1;
        }
        proof {
            assert(out@ =~= old(out)@ + encoded_segment(bytes@));
        }
    } else {
        proof {
            assert(zero_bytes(0) =~= Seq::<u8>::empty());
            assert(out@ =~= old(out)@ + encoded_segment(bytes@));
        }
    }
}

/// Appends the encoded form of `d` to `out`.
pub(crate) fn push_metadata(out: &mut Vec<u8>, d: &AssetData)
    ensures
        final(out)@ == old(out)@ + encoded_metadata(d@),
{
    push_data_segment(out, d.name.as_str());
    push_data_segment(out, d.symbol.as_str());
    push_be_word(out, d.decimals);
}

/// The encoded payload of one metadata value.
pub(crate) fn metadata_payload(d: &AssetData) -> (r: Vec<u8>)
    ensures
        r@ == encoded_metadata(d@),
{
    let mut out: Vec<u8> = Vec::new();
    push_metadata(&mut out, d);
    out
}

/// `encoded_batch` distributes over appending one element.
proof fn lemma_encoded_batch_snoc(ms: Seq<AssetDataView>, m: AssetDataView)
    ensures
        encoded_batch(ms.push(m)) == encoded_batch(ms) + encoded_metadata(m),
    decreases ms.len(),
{
    if ms.len() == 0 {
        assert(ms.push(m)[0] == m);
        assert(ms.push(m).drop_first() =~= Seq::<AssetDataView>::empty());
        assert(encoded_batch(Seq::<AssetDataView>::empty()) == Seq::<u8>::empty());
        assert(encoded_batch(ms.push(m)) =~= encoded_batch(ms) + encoded_metadata(m));
    } else {
        assert(ms.push(m)[0] == ms[0]);
        assert(ms.push(m).drop_first() =~= ms.drop_first().push(m));
        lemma_encoded_batch_snoc(ms.drop_first(), m);
        assert(encoded_batch(ms.push(m)) =~= encoded_batch(ms) + encoded_metadata(m));
    }
}

/// The encoded payload of a batch of metadata values.
pub(crate) fn batch_payload(data: &Vec<AssetData>) -> (r: Vec<u8>)
    ensures
        r@ == encoded_batch(views_of(data@)),
{
    let mut out: Vec<u8> = Vec::new();
    let mut i: usize = 0;
    while i < data.len()
        invariant
            i <= data.len(),
            out@ == encoded_batch(views_of(data@.take(i as int))),
        decreases data.len() - i,
    {
        push_metadata(&mut out, &data[i]);
        proof {
            assert(views_of(data@.take(i + 1)) =~= views_of(data@.take(i as int)).push(
                data@[i as int]@,
            ));
            lemma_encoded_batch_snoc(views_of(data@.take(i as int)), data@[i as int]@);
        }
        i = i + 1;
    }
    proof {
        assert(data@.take(data@.len() as int) =~= data@);
    }
    out
}

/// Encodes one metadata tuple for attachment to a contract call.
pub fn get_asset_data(name: String, symbol: String, decimals: u64) -> (r: Vec<u8>)
    ensures
        r@ == encoded_metadata(AssetDataView { name: name@, symbol: symbol@, decimals }),
{
    let d = AssetData { name, symbol, decimals };
    metadata_payload(&d)
}

/// Encodes a batch of metadata tuples: the per-element encodings
/// concatenated in input order.
pub fn get_batch_asset_data(data: Vec<AssetData>) -> (r: Vec<u8>)
    ensures
        r@ == encoded_batch(views_of(data@)),
{
    batch_payload(&data)
}

/// The per-element encodings of a batch.
pub open spec fn metadata_encodings(ms: Seq<AssetDataView>) -> Seq<Seq<u8>> {
    ms.map_values(|m: AssetDataView| encoded_metadata(m))
}

/// The batch encoding of `[m1, ..., mn]` equals the byte-concatenation of
/// the element encodings `encoded_metadata(m1), ..., encoded_metadata(mn)`,
/// for any `n >= 0`; the empty batch encodes to the empty payload.
pub proof fn lemma_batch_encoding_concatenates(ms: Seq<AssetDataView>)
    ensures
        encoded_batch(ms) == metadata_encodings(ms).flatten(),
    decreases ms.len(),
{
    if ms.len() == 0 {
        assert(metadata_encodings(ms) =~= Seq::<Seq<u8>>::empty());
        assert(Seq::<Seq<u8>>::empty().flatten() == Seq::<u8>::empty());
    } else {
        lemma_batch_encoding_concatenates(ms.drop_first());
        assert(metadata_encodings(ms).drop_first() =~= metadata_encodings(ms.drop_first()));
        assert(metadata_encodings(ms)[0] == encoded_metadata(ms[0]));
        assert(metadata_encodings(ms).flatten() == metadata_encodings(ms).first() + metadata_encodings(
            ms,
        ).drop_first().flatten());
        assert(encoded_batch(ms) =~= metadata_encodings(ms).flatten());
    }
}

/// Two equal 32-byte words come from the same value.
proof fn lemma_be_word_injective(x: u64, y: u64)
    requires
        be_word(x) == be_word(y),
    ensures
        x == y,
{
    assert forall|i: int| 24 <= i < 32 implies word_byte(x, i) == word_byte(y, i) by {
        assert(be_word(x)[i] == word_byte(x, i));
        assert(be_word(y)[i] == word_byte(y, i));
    }
    assert(word_byte(x, 24) == word_byte(y, 24));
    assert(word_byte(x, 25) == word_byte(y, 25));
    assert(word_byte(x, 26) == word_byte(y, 26));
    assert(word_byte(x, 27) == word_byte(y, 27));
    assert(word_byte(x, 28) == word_byte(y, 28));
    assert(word_byte(x, 29) == word_byte(y, 29));
    assert(word_byte(x, 30) == word_byte(y, 30));
    assert(word_byte(x, 31) == word_byte(y, 31));
    assert(x == y) by (bit_vector)
        requires
            (((x >> 56u64) & 0xff) as u8) == (((y >> 56u64) & 0xff) as u8),
            (((x >> 48u64) & 0xff) as u8) == (((y >> 48u64) & 0xff) as u8),
            (((x >> 40u64) & 0xff) as u8) == (((y >> 40u64) & 0xff) as u8),
            (((x >> 32u64) & 0xff) as u8) == (((y >> 32u64) & 0xff) as u8),
            (((x >> 24u64) & 0xff) as u8) == (((y >> 24u64) & 0xff) as u8),
            (((x >> 16u64) & 0xff) as u8) == (((y >> 16u64) & 0xff) as u8),
            (((x >> 8u64) & 0xff) as u8) == (((y >> 8u64) & 0xff) as u8),
            (((x >> 0u64) & 0xff) as u8) == (((y >> 0u64) & 0xff) as u8),
    ;
}

/// A segment followed by arbitrary bytes determines its content and the
/// remainder: the length word delimits the segment without ambiguity.
proof fn lemma_segment_unambiguous(a: Seq<u8>, b: Seq<u8>, x: Seq<u8>, y: Seq<u8>)
    requires
        a.len() <= u64::MAX,
        b.len() <= u64::MAX,
        encoded_segment(a) + x == encoded_segment(b) + y,
    ensures
        a == b,
        x == y,
{
    let s = encoded_segment(a) + x;
    assert(encoded_segment(a).len() == 32 + a.len() + seg_pad(a.len()));
    assert(encoded_segment(b).len() == 32 + b.len() + seg_pad(b.len()));
    assert(s.subrange(0, 32) =~= be_word(a.len() as u64));
    assert((encoded_segment(b) + y).subrange(0, 32) =~= be_word(b.len() as u64));
    lemma_be_word_injective(a.len() as u64, b.len() as u64);
    assert(a.len() == b.len());
    assert(a =~= s.subrange(32, 32 + a.len() as int));
    assert(b =~= (encoded_segment(b) + y).subrange(32, 32 + b.len() as int));
    assert(a == b);
    let l = encoded_segment(a).len() as int;
    assert(x =~= s.subrange(l, s.len() as int));
    assert(y =~= (encoded_segment(b) + y).subrange(l, s.len() as int));
    assert(x == y);
}

/// The metadata encoding is injective: two tuples of supported lengths with
/// the same encoded payload are the same tuple.
pub proof fn lemma_metadata_encoding_injective(m1: AssetDataView, m2: AssetDataView)
    requires
        encode_utf8(m1.name).len() <= u64::MAX,
        encode_utf8(m1.symbol).len() <= u64::MAX,
        encode_utf8(m2.name).len() <= u64::MAX,
        encode_utf8(m2.symbol).len() <= u64::MAX,
        encoded_metadata(m1) == encoded_metadata(m2),
    ensures
        m1 == m2,
{
    let n1 = encode_utf8(m1.name);
    let n2 = encode_utf8(m2.name);
    let s1 = encode_utf8(m1.symbol);
    let s2 = encode_utf8(m2.symbol);
    assert(encoded_segment(n1) + (encoded_segment(s1) + be_word(m1.decimals)) =~= encoded_segment(
        n2,
    ) + (encoded_segment(s2) + be_word(m2.decimals))) by {
        assert(encoded_metadata(m1) =~= encoded_segment(n1) + (encoded_segment(s1) + be_word(
            m1.decimals,
        )));
        assert(encoded_metadata(m2) =~= encoded_segment(n2) + (encoded_segment(s2) + be_word(
            m2.decimals,
        )));
    }
    lemma_segment_unambiguous(
        n1,
        n2,
        encoded_segment(s1) + be_word(m1.decimals),
        encoded_segment(s2) + be_word(m2.decimals),
    );
    lemma_segment_unambiguous(s1, s2, be_word(m1.decimals), be_word(m2.decimals));
    lemma_be_word_injective(m1.decimals, m2.decimals);
    encode_utf8_decode_utf8(m1.name);
    encode_utf8_decode_utf8(m2.name);
    encode_utf8_decode_utf8(m1.symbol);
    encode_utf8_decode_utf8(m2.symbol);
    assert(m1.name == m2.name);
    assert(m1.symbol == m2.symbol);
    assert(m1 =~= m2);
}

} // verus!
