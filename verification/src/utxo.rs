//! The coin state kept for building filters: the output's script and nothing more.

use vstd::prelude::*;

verus! {

/// What is remembered of an unspent output.
#[derive(Clone, Debug, PartialEq, Eq)]
pub struct FilterCoin {
    pub script: Vec<u8>,
}

impl View for FilterCoin {
    type V = Seq<u8>;

    open spec fn view(&self) -> Seq<u8> {
        self.script@
    }
}

/// Bytes that are not the encoding of a script.
#[derive(Clone, Copy, Debug, PartialEq, Eq, Structural)]
pub struct CoinDecodeError;

/// Longest script, in bytes, that decoding accepts.
pub const MAX_SCRIPT_LEN: usize = 4_000_000;

/// The `width` low bytes of `value`, lowest first.
pub open spec fn le_bytes(value: nat, width: nat) -> Seq<u8>
    decreases width,
{
    if width == 0 {
        Seq::empty()
    } else {
        seq![(value % 256) as u8] + le_bytes(value / 256, (width - 1) as nat)
    }
}

/// The number that `bytes` spell, lowest byte first.
pub open spec fn le_value(bytes: Seq<u8>) -> nat
    decreases bytes.len(),
{
    if bytes.len() == 0 {
        0
    } else {
        bytes[0] as nat + 256 * le_value(bytes.drop_first())
    }
}

/// The variable-length encoding of a length: one byte below `0xFD`, else a
/// marker byte followed by two, four or eight bytes, lowest first.
pub open spec fn compact_size(n: nat) -> Seq<u8> {
    if n < 0xFD {
        seq![n as u8]
    } else if n <= 0xFFFF {
        seq![0xFDu8] + le_bytes(n, 2)
    } else if n <= 0xFFFF_FFFF {
        seq![0xFEu8] + le_bytes(n, 4)
    } else {
        seq![0xFFu8] + le_bytes(n, 8)
    }
}

/// The consensus encoding of a script: its length, then its bytes.
pub open spec fn script_encoding(script: Seq<u8>) -> Seq<u8> {
    compact_size(script.len()) + script
}

/// The length that stands at the front of `bytes` and the number of bytes
/// it takes, or nothing where the bytes run out or the length is not
/// written in its shortest form.
pub open spec fn read_compact_size(bytes: Seq<u8>) -> Option<(nat, nat)> {
    if bytes.len() == 0 {
        None
    } else if bytes[0] < 0xFD {
        Some((bytes[0] as nat, 1nat))
    } else {
        let width: int = if bytes[0] == 0xFD {
            2
        } else if bytes[0] == 0xFE {
            4
        } else {
            8
        };
        let least: nat = if bytes[0] == 0xFD {
            0xFD
        } else if bytes[0] == 0xFE {
            0x1_0000
        } else {
            0x1_0000_0000
        };
        if bytes.len() < 1 + width {
            None
        } else if le_value(bytes.subrange(1, 1 + width)) < least {
            None
        } else {
            Some((le_value(bytes.subrange(1, 1 + width)), (1 + width) as nat))
        }
    }
}

/// What consensus decoding reads from the front of `bytes`: the script and
/// the number of bytes it took, or nothing where no script stands there:
/// the length is malformed or above `MAX_SCRIPT_LEN`, or fewer bytes follow
/// than it announces.
pub open spec fn script_decoding(bytes: Seq<u8>) -> Option<(Seq<u8>, nat)> {
    match read_compact_size(bytes) {
        None => None,
        Some((len, taken)) => {
            if len > MAX_SCRIPT_LEN || bytes.len() < taken + len {
                None
            } else {
                Some((bytes.subrange(taken as int, (taken + len) as int), taken + len))
            }
        },
    }
}

#[verifier::external_type_specification]
#[verifier::external_body]
pub struct ExConsensusError(bitcoin::consensus::encode::Error);

/// Calls `bitcoin::consensus::encode::serialize` on a `bitcoin::Script` made
/// of `script`. The script type encodes as its boxed bytes do: the length
/// as a variable-length integer, then the bytes.
#[verifier::external_body]
fn encode_script(script: &Vec<u8>) -> (bytes: Vec<u8>)
    ensures
        bytes@ == script_encoding(script@),
{
    bitcoin::consensus::encode::serialize(&bitcoin::Script::from(script.clone()))
}

/// Calls `bitcoin::consensus::encode::deserialize_partial` for a
/// `bitcoin::Script`. The call reads a variable-length integer, refuses one
/// that is not in its shortest form or is above the crate's `MAX_VEC_SIZE`,
/// then reads that many bytes; it fails where the bytes run out. The count
/// it returns is the position of its cursor. A length of nine bytes is left
/// out: the call narrows it to `usize`, which loses bits where `usize` has
/// fewer than 64.
#[verifier::external_body]
fn decode_script(bytes: &Vec<u8>) -> (r: Result<(Vec<u8>, usize), bitcoin::consensus::encode::Error>)
    requires
        bytes@.len() == 0 || bytes@[0] != 0xFF,
    ensures
        match r {
            Ok(read) => script_decoding(bytes@) == Some((read.0@, read.1 as nat)),
            Err(_) => script_decoding(bytes@).is_none(),
        },
{
    bitcoin::consensus::encode::deserialize_partial::<bitcoin::Script>(bytes.as_slice()).map(
        |read| (read.0.into_bytes(), read.1),
    )
}

impl FilterCoin {
    /// The coin of output `vout` of a transaction whose outputs carry the
    /// scripts `outputs`, in order. The height at which the transaction was
    /// mined plays no part.
    pub fn new_utxo(_height: u32, outputs: &Vec<Vec<u8>>, vout: u32) -> (coin: FilterCoin)
        requires
            vout < outputs@.len(),
        ensures
            coin@ == outputs@[vout as int]@,
    {
        let source = &outputs[vout as usize];
        let mut script: Vec<u8> = Vec::new();
        let mut i: usize = 0;
        while i < source.len()
            invariant
                i <= source.len(),
                script@ == source@.take(i as int),
            decreases source.len() - i,
        {
            script.push(source[i]);
            proof {
                assert(source@.take(i + 1) =~= source@.take(i as int).push(source@[i as int]));
            }
            i += 1;
        }
        proof {
            assert(source@.take(i as int) =~= source@);
        }
        FilterCoin { script }
    }

    /// The consensus encoding of the coin, which is that of its script.
    pub fn consensus_encode(&self) -> (bytes: Vec<u8>)
        ensures
            bytes@ == script_encoding(self@),
    {
        encode_script(&self.script)
    }

    /// Decodes a coin from the front of `bytes`, and says how many bytes it
    /// took.
    pub fn consensus_decode(bytes: &Vec<u8>) -> (r: Result<(FilterCoin, usize), CoinDecodeError>)
        ensures
            match r {
                Ok(found) => script_decoding(bytes@) == Some((found.0@, found.1 as nat)),
                Err(_) => script_decoding(bytes@).is_none(),
            },
    {
        // A nine-byte length is at least 2^32 when written in its shortest
        // form, so no script of an accepted length starts with this marker.
        if bytes.len() > 0 && bytes[0] == 0xFF {
            return Err(CoinDecodeError);
        }
        match decode_script(bytes) {
            Ok((script, taken)) => Ok((FilterCoin { script }, taken)),
            Err(_) => Err(CoinDecodeError),
        }
    }
}

/// Two, or four, low bytes spell the number they were taken from, if it is
/// small enough to fit.
pub proof fn le_bytes_spell_value(value: nat)
    ensures
        value < 0x1_0000 ==> le_value(le_bytes(value, 2)) == value,
        value < 0x1_0000_0000 ==> le_value(le_bytes(value, 4)) == value,
{
    reveal_with_fuel(le_bytes, 5);
    if value < 0x1_0000 {
        let b = le_bytes(value, 2);
        assert(b =~= seq![(value % 256) as u8, (value / 256 % 256) as u8]);
        assert(b.drop_first() =~= seq![(value / 256 % 256) as u8]);
        assert(b.drop_first().drop_first() =~= Seq::<u8>::empty());
        reveal_with_fuel(le_value, 3);
    }
    if value < 0x1_0000_0000 {
        let b = le_bytes(value, 4);
        let b0 = (value % 256) as u8;
        let b1 = (value / 256 % 256) as u8;
        let b2 = (value / 256 / 256 % 256) as u8;
        let b3 = (value / 256 / 256 / 256 % 256) as u8;
        assert(b =~= seq![b0, b1, b2, b3]);
        assert(b.drop_first() =~= seq![b1, b2, b3]);
        assert(b.drop_first().drop_first() =~= seq![b2, b3]);
        assert(b.drop_first().drop_first().drop_first() =~= seq![b3]);
        assert(b.drop_first().drop_first().drop_first().drop_first() =~= Seq::<u8>::empty());
        reveal_with_fuel(le_value, 5);
    }
}

/// Decoding undoes encoding: from the encoding of a script that is not
/// longer than `MAX_SCRIPT_LEN`, whatever follows it, decoding reads the
/// script back and takes exactly the bytes of the encoding.
pub proof fn decoding_undoes_encoding(script: Seq<u8>, rest: Seq<u8>)
    requires
        script.len() <= MAX_SCRIPT_LEN,
    ensures
        script_decoding(script_encoding(script) + rest) == Some(
            (script, script_encoding(script).len()),
        ),
{
    let n = script.len() as int;
    let head = compact_size(n as nat);
    let bytes = script_encoding(script) + rest;
    le_bytes_spell_value(n as nat);
    reveal_with_fuel(le_bytes, 5);
    if n < 0xFD {
        assert(head.len() == 1);
        assert(bytes[0] == n as u8);
        assert(bytes.subrange(1, 1 + n) =~= script);
    } else if n <= 0xFFFF {
        assert(head.len() == 3);
        assert(bytes[0] == 0xFD);
        assert(bytes.subrange(1, 3) =~= le_bytes(n as nat, 2));
        assert(bytes.subrange(3, 3 + n) =~= script);
    } else {
        assert(head.len() == 5);
        assert(bytes[0] == 0xFE);
        assert(bytes.subrange(1, 5) =~= le_bytes(n as nat, 4));
        assert(bytes.subrange(5, 5 + n) =~= script);
    }
}

} // verus!
