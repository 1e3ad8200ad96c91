//! The text a server announces on the local network: the message of the
//! day is the configured broadcast one when it is set and non-empty,
//! otherwise the server's own with every line break flattened to a
//! space; the advertisement wraps it with the bound port in the fixed
//! bracket markup. The socket loop that sends it lives at the caller;
//! the bytes built here are what it sends.

use vstd::prelude::*;

verus! {

/// A line break flattened to a space; every other byte kept.
pub open spec fn flatten_byte(b: u8) -> u8 {
    if b == 10 {
        32
    } else {
        b
    }
}

/// The message of the day to broadcast: the dedicated one when it is set
/// and non-empty, else the fallback with line breaks flattened (the
/// broadcast format has no second line).
pub open spec fn spec_broadcast_motd(dedicated: Option<Seq<u8>>, fallback: Seq<u8>) -> Seq<u8> {
    match dedicated {
        Some(m) => if m.len() > 0 {
            m
        } else {
            fallback.map_values(|b: u8| flatten_byte(b))
        },
        None => fallback.map_values(|b: u8| flatten_byte(b)),
    }
}

/// Picks the message of the day to broadcast, flattening line breaks in
/// the fallback. Returns it with whether the fallback was used (the
/// caller warns about the flattening then).
pub fn select_broadcast_motd(dedicated: Option<Vec<u8>>, fallback: Vec<u8>) -> (r: (Vec<u8>, bool))
    ensures
        r.0@ == spec_broadcast_motd(
            match dedicated {
                Some(m) => Some(m@),
                None => None,
            },
            fallback@,
        ),
        r.1 == match dedicated {
            Some(m) => m@.len() == 0,
            None => true,
        },
{
    match dedicated {
        Some(m) => {
            if m.len() > 0 {
                (m, false)
            } else {
                (flatten_line_breaks(fallback), true)
            }
        },
        None => (flatten_line_breaks(fallback), true),
    }
}

/// Replaces every line break with a space.
fn flatten_line_breaks(text: Vec<u8>) -> (r: Vec<u8>)
    ensures
        r@ == text@.map_values(|b: u8| flatten_byte(b)),
{
    let n = text.len();
    let mut out: Vec<u8> = Vec::new();
    let mut i: usize = 0;
    while i < n
        invariant
            i <= n,
            n == text@.len(),
            out@ =~= text@.take(i as int).map_values(|b: u8| flatten_byte(b)),
        decreases n - i,
    {
        let b = text[i];
        if b == 10 {
            out.push(32);
        } else {
            out.push(b);
        }
        proof {
            assert(text@.take(i + 1) =~= text@.take(i as int).push(text@[i as int]));
            assert(text@.take(i + 1).map_values(|b: u8| flatten_byte(b)) =~= text@.take(
                i as int,
            ).map_values(|b: u8| flatten_byte(b)).push(flatten_byte(text@[i as int])));
        }
        i = i + 1;
    }
    proof {
        assert(text@.take(n as int) =~= text@);
    }
    out
}

/// The decimal digits of a value, most significant first.
pub open spec fn dec_digits(v: nat) -> Seq<u8>
    decreases v,
{
    if v < 10 {
        seq![(48 + v) as u8]
    } else {
        dec_digits(v / 10) + seq![(48 + v % 10) as u8]
    }
}

/// Writes a value in decimal.
pub fn write_decimal(v: u64, out: &mut Vec<u8>)
    ensures
        final(out)@ == old(out)@ + dec_digits(v as nat),
    decreases v,
{
    if v < 10 {
        out.push(48 + (v as u8));
        assert(final(out)@ =~= old(out)@ + dec_digits(v as nat));
    } else {
        write_decimal(v / 10, out);
        let ghost mid = out@;
        out.push(48 + ((v % 10) as u8));
        proof {
            assert(out@ =~= mid + seq![(48 + (v as nat) % 10) as u8]);
            assert(out@ =~= old(out)@ + dec_digits(v as nat));
        }
    }
}

/// The advertisement sent on the local network: the message of the day
/// and the bound port, each in its bracket markup.
pub open spec fn spec_advertisement(motd: Seq<u8>, port: u16) -> Seq<u8> {
    "[MOTD]".view().map_values(|c: char| c as u8) + motd + "[/MOTD][AD]".view().map_values(
        |c: char| c as u8,
    ) + dec_digits(port as nat) + "[/AD]".view().map_values(|c: char| c as u8)
}

/// Builds the advertisement for a message of the day and a bound port.
pub fn advertisement(motd: &[u8], port: u16) -> (r: Vec<u8>)
    ensures
        r@ == spec_advertisement(motd@, port),
{
    let mut out: Vec<u8> = Vec::new();
    push_marker_open(&mut out);
    crate::frame::append_bytes(motd, &mut out);
    push_marker_middle(&mut out);
    write_decimal(port as u64, &mut out);
    push_marker_close(&mut out);
    proof {
        assert(out@ =~= spec_advertisement(motd@, port));
    }
    out
}

/// Appends the opening marker bytes.
fn push_marker_open(out: &mut Vec<u8>)
    ensures
        final(out)@ == old(out)@ + "[MOTD]".view().map_values(|c: char| c as u8),
{
    let ghost start = out@;
    out.push(91);
    out.push(77);
    out.push(79);
    out.push(84);
    out.push(68);
    out.push(93);
    proof {
        reveal_strlit("[MOTD]");
        assert(out@ =~= start + "[MOTD]".view().map_values(|c: char| c as u8));
    }
}

/// Appends the closing-and-opening middle marker bytes.
fn push_marker_middle(out: &mut Vec<u8>)
    ensures
        final(out)@ == old(out)@ + "[/MOTD][AD]".view().map_values(|c: char| c as u8),
{
    let ghost start = out@;
    out.push(91);
    out.push(47);
    out.push(77);
    out.push(79);
    out.push(84);
    out.push(68);
    out.push(93);
    out.push(91);
    out.push(65);
    out.push(68);
    out.push(93);
    proof {
        reveal_strlit("[/MOTD][AD]");
        assert(out@ =~= start + "[/MOTD][AD]".view().map_values(|c: char| c as u8));
    }
}

/// Appends the closing marker bytes.
fn push_marker_close(out: &mut Vec<u8>)
    ensures
        final(out)@ == old(out)@ + "[/AD]".view().map_values(|c: char| c as u8),
{
    let ghost start = out@;
    out.push(91);
    out.push(47);
    out.push(65);
    out.push(68);
    out.push(93);
    proof {
        reveal_strlit("[/AD]");
        assert(out@ =~= start + "[/AD]".view().map_values(|c: char| c as u8));
    }
}

} // verus!
