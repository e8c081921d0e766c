//! A small verified JSON text writer.
//!
//! Outgoing request bodies are framed here as UTF-8 bytes: string values are
//! escaped and quoted, and fixed syntax (braces, keys, separators) is appended
//! from string literals. The specification of every writer is an exact byte
//! sequence.

use vstd::prelude::*;
use vstd::string::StrSliceExecFns;
use vstd::string::StringSliceAdditionalSpecFns;

verus! {

/// The hexadecimal digit character, as a byte, for a value below sixteen.
pub open spec fn hex_byte(n: u8) -> u8 {
    if n < 10 {
        (0x30 + n) as u8
    } else {
        (0x61 + (n - 10)) as u8
    }
}

/// How one byte of a string value is written inside a JSON string literal:
/// quote and backslash get a backslash escape, the control characters with a
/// short form get it, the remaining control characters get a `\u00xx` escape,
/// and every other byte stands as it is.
pub open spec fn escaped_byte(b: u8) -> Seq<u8> {
    if b == 0x22 {
        seq![0x5cu8, 0x22u8]
    } else if b == 0x5c {
        seq![0x5cu8, 0x5cu8]
    } else if b == 0x08 {
        seq![0x5cu8, 0x62u8]
    } else if b == 0x09 {
        seq![0x5cu8, 0x74u8]
    } else if b == 0x0a {
        seq![0x5cu8, 0x6eu8]
    } else if b == 0x0c {
        seq![0x5cu8, 0x66u8]
    } else if b == 0x0d {
        seq![0x5cu8, 0x72u8]
    } else if b < 0x20 {
        seq![0x5cu8, 0x75u8, 0x30u8, 0x30u8, hex_byte(b / 16), hex_byte(b % 16)]
    } else {
        seq![b]
    }
}

/// The escaped form of a whole string value, byte by byte.
pub open spec fn json_escape(s: Seq<u8>) -> Seq<u8>
    decreases s.len(),
{
    if s.len() == 0 {
        Seq::empty()
    } else {
        json_escape(s.drop_last()) + escaped_byte(s.last())
    }
}

/// A JSON string literal: the escaped value between double quotes.
pub open spec fn json_string(s: Seq<u8>) -> Seq<u8> {
    seq![0x22u8] + json_escape(s) + seq![0x22u8]
}

/// Appends the UTF-8 bytes of `s` unchanged; used for fixed JSON syntax.
pub fn push_lit(out: &mut Vec<u8>, s: &str)
    ensures
        final(out)@ == old(out)@ + s.spec_bytes(),
{
    let mut bs = s.as_bytes_vec();
    out.append(&mut bs);
}

/// Appends raw, already encoded JSON text.
pub fn push_raw(out: &mut Vec<u8>, body: &Vec<u8>)
    ensures
        final(out)@ == old(out)@ + body@,
{
    let mut copy = body.clone();
    out.append(&mut copy);
}

/// Appends `s` as a JSON string literal, quoted and escaped.
pub fn push_json_string(out: &mut Vec<u8>, s: &str)
    ensures
        final(out)@ == old(out)@ + json_string(s.spec_bytes()),
{
    let bs = s.as_bytes_vec();
    out.push(0x22u8);
    let ghost start = out@;
    let mut i: usize = 0;
    while i < bs.len()
        invariant
            i <= bs.len(),
            out@ == start + json_escape(bs@.take(i as int)),
        decreases bs.len() - i,
    {
        let b = bs[i];
        if b == 0x22 {
            out.push(0x5cu8);
            out.push(0x22u8);
        } else if b == 0x5c {
            out.push(0x5cu8);
            out.push(0x5cu8);
        } else if b == 0x08 {
            out.push(0x5cu8);
            out.push(0x62u8);
        } else if b == 0x09 {
            out.push(0x5cu8);
            out.push(0x74u8);
        } else if b == 0x0a {
            out.push(0x5cu8);
            out.push(0x6eu8);
        } else if b == 0x0c {
            out.push(0x5cu8);
            out.push(0x66u8);
        } else if b == 0x0d {
            out.push(0x5cu8);
            out.push(0x72u8);
        } else if b < 0x20 {
            out.push(0x5cu8);
            out.push(0x75u8);
            out.push(0x30u8);
            out.push(0x30u8);
            out.push(if b / 16 < 10 {
                0x30u8 + b / 16
            } else {
                0x61u8 + (b / 16 - 10)
            });
            out.push(if b % 16 < 10 {
                0x30u8 + b % 16
            } else {
                0x61u8 + (b % 16 - 10)
            });
        } else {
            out.push(b);
        }
        proof {
            assert(bs@.take(i + 1 as int).drop_last() =~= bs@.take(i as int));
            assert(bs@.take(i + 1 as int).last() == bs@[i as int]);
            assert(out@ =~= start + json_escape(bs@.take(i + 1 as int)));
        }
        i = i + 1;
    }
    proof {
        assert(bs@.take(bs@.len() as int) =~= bs@);
    }
    out.push(0x22u8);
    proof {
        assert(out@ =~= old(out)@ + json_string(s.spec_bytes()));
    }
}

} // verus!
