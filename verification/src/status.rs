//! The one-line status artifact: which window is focused.
//!
//! After every event the engine offers a fresh status line for an external
//! consumer (a status bar, say) to read: the literal prefix `focused:`
//! followed by the focused window's handle in decimal and a newline, or a
//! single space in place of the handle when no window is focused.  The
//! bytes are computed here, exactly; writing them anywhere is the
//! surrounding program's business.

use vstd::prelude::*;

verus! {

/// The decimal digits of `n`, most significant first, as ASCII bytes.
pub open spec fn decimal_digits(n: nat) -> Seq<u8>
    decreases n,
{
    if n < 10 {
        seq![(48 + n) as u8]
    } else {
        decimal_digits(n / 10).push((48 + n % 10) as u8)
    }
}

/// The ASCII bytes of the literal prefix `focused:`.
pub open spec fn status_prefix() -> Seq<u8> {
    seq![102u8, 111u8, 99u8, 117u8, 115u8, 101u8, 100u8, 58u8]
}

/// The status line for a focused window, or for none: the exact bytes of
/// `focused:<handle>\n`, or of `focused: \n` with a lone space when no
/// window is focused.
pub open spec fn status_line_spec(front: Option<u64>) -> Seq<u8> {
    match front {
        Some(w) => status_prefix() + decimal_digits(w as nat) + seq![10u8],
        None => status_prefix() + seq![32u8, 10u8],
    }
}

/// Append the decimal digits of `n` to `out`.
fn push_decimal(n: u64, out: &mut Vec<u8>)
    ensures
        final(out)@ == old(out)@ + decimal_digits(n as nat),
    decreases n,
{
    if n < 10 {
        out.push(48 + n as u8);
        proof {
            assert(out@ =~= old(out)@ + decimal_digits(n as nat));
        }
    } else {
        push_decimal(n / 10, out);
        out.push(48 + (n % 10) as u8);
        proof {
            assert(out@ =~= old(out)@ + decimal_digits(n as nat));
        }
    }
}

/// Render the status line for a focused window, or for none.
pub fn format_status(front: Option<u64>) -> (line: Vec<u8>)
    ensures
        line@ == status_line_spec(front),
{
    let mut line: Vec<u8> = Vec::new();
    line.push(102);  // f
    line.push(111);  // o
    line.push(99);  // c
    line.push(117);  // u
    line.push(115);  // s
    line.push(101);  // e
    line.push(100);  // d
    line.push(58);  // :
    match front {
        Some(w) => {
            push_decimal(w, &mut line);
            line.push(10);
            proof {
                assert(line@ =~= status_line_spec(front));
            }
        },
        None => {
            line.push(32);  // the lone space standing for "no window"
            line.push(10);
            proof {
                assert(line@ =~= status_line_spec(front));
            }
        },
    }
    line
}

} // verus!
