use vstd::prelude::*;
use crate::ipc_message::{IpcMessage, Status};

verus! {

/// Decimal digits of `n`, most significant first, as ASCII bytes.
pub open spec fn dec_of(n: nat) -> Seq<u8>
    decreases n,
{
    if n < 10 {
        seq![(48 + n) as u8]
    } else {
        dec_of(n / 10).push((48 + n % 10) as u8)
    }
}

/// Decimal rendering of `i`, with a leading minus sign when negative.
pub open spec fn dec_of_int(i: int) -> Seq<u8> {
    if i < 0 {
        seq![45u8] + dec_of((-i) as nat)
    } else {
        dec_of(i as nat)
    }
}

/// The prefix of `s` up to, and not including, its first zero byte; all of
/// `s` when no byte of it is zero.
pub open spec fn nul_prefix(s: Seq<u8>) -> Seq<u8>
    decreases s.len(),
{
    if s.len() == 0 {
        s
    } else if s[0] == 0 {
        Seq::empty()
    } else {
        seq![s[0]] + nul_prefix(s.drop_first())
    }
}

/// The decoded description never exceeds the buffer, copies the buffer's
/// leading non-zero bytes unchanged, and stops exactly at the first zero
/// byte when one occurs.
pub proof fn lemma_nul_prefix_well_formed(s: Seq<u8>)
    ensures
        nul_prefix(s).len() <= s.len(),
        forall|i: int| 0 <= i < nul_prefix(s).len() ==> nul_prefix(s)[i] == s[i] && s[i] != 0,
        nul_prefix(s).len() < s.len() ==> s[nul_prefix(s).len() as int] == 0,
    decreases s.len(),
{
    if s.len() == 0 {
    } else if s[0] == 0 {
    } else {
        lemma_nul_prefix_well_formed(s.drop_first());
        assert forall|i: int| 0 <= i < nul_prefix(s).len() implies nul_prefix(s)[i] == s[i]
            && s[i] != 0 by {
            if i > 0 {
                assert(nul_prefix(s)[i] == nul_prefix(s.drop_first())[i - 1]);
                assert(s.drop_first()[i - 1] == s[i]);
            }
        }
        if nul_prefix(s).len() < s.len() {
            assert(s.drop_first()[nul_prefix(s.drop_first()).len() as int]
                == s[nul_prefix(s).len() as int]);
        }
    }
}

/// Append the decimal digits of `n` to `out`.
pub fn push_dec(n: u32, out: &mut Vec<u8>)
    ensures
        final(out)@ == old(out)@ + dec_of(n as nat),
    decreases n,
{
    if n >= 10 {
        push_dec(n / 10, out);
    }
    let d: u8 = 48 + (n % 10) as u8;
    out.push(d);
    proof {
        if n >= 10 {
            assert(out@ =~= old(out)@ + dec_of(n as nat));
        } else {
            assert(dec_of(n as nat) =~= seq![d]);
            assert(out@ =~= old(out)@ + dec_of(n as nat));
        }
    }
}

/// Append the decimal rendering of `v`, sign included, to `out`.
pub fn push_dec_i32(v: i32, out: &mut Vec<u8>)
    ensures
        final(out)@ == old(out)@ + dec_of_int(v as int),
{
    if v < 0 {
        out.push(45);
        let wide: i64 = -(v as i64);
        assert(0 <= wide <= u32::MAX);
        push_dec(wide as u32, out);
        proof {
            assert(wide as u32 as nat == (-(v as int)) as nat);
            assert(out@ =~= old(out)@ + dec_of_int(v as int));
        }
    } else {
        push_dec(v as u32, out);
    }
}

/// The decimal digits of `v` alone, as ASCII bytes.
pub fn decimal_of(v: i32) -> (out: Vec<u8>)
    ensures
        out@ == dec_of_int(v as int),
{
    let mut out: Vec<u8> = Vec::new();
    push_dec_i32(v, &mut out);
    out
}

/// Append the NUL-terminated prefix of `desc`, starting at `i`, to `out`.
fn push_nul_prefix_from(desc: &Vec<u8>, i: usize, out: &mut Vec<u8>)
    requires
        i <= desc@.len(),
    ensures
        final(out)@ == old(out)@ + nul_prefix(desc@.skip(i as int)),
    decreases desc@.len() - i,
{
    if i < desc.len() {
        let b = desc[i];
        if b != 0 {
            out.push(b);
            push_nul_prefix_from(desc, i + 1, out);
            proof {
                let tail = desc@.skip(i as int);
                assert(tail[0] == b);
                assert(tail.drop_first() =~= desc@.skip(i as int + 1));
                assert(nul_prefix(tail) =~= seq![b] + nul_prefix(desc@.skip(i as int + 1)));
                assert(out@ =~= old(out)@ + nul_prefix(tail));
            }
        } else {
            proof {
                assert(desc@.skip(i as int)[0] == 0);
                assert(nul_prefix(desc@.skip(i as int)) =~= Seq::<u8>::empty());
                assert(out@ =~= old(out)@ + nul_prefix(desc@.skip(i as int)));
            }
        }
    } else {
        proof {
            assert(desc@.skip(i as int).len() == 0);
            assert(out@ =~= old(out)@ + nul_prefix(desc@.skip(i as int)));
        }
    }
}

/// The description text of a fixed-capacity buffer: its bytes up to the
/// first NUL, or the whole buffer when no NUL occurs.
pub fn decode_description(desc: &Vec<u8>) -> (out: Vec<u8>)
    ensures
        out@ == nul_prefix(desc@),
{
    let mut out: Vec<u8> = Vec::new();
    push_nul_prefix_from(desc, 0, &mut out);
    proof {
        assert(desc@.skip(0) =~= desc@);
        assert(out@ =~= nul_prefix(desc@));
    }
    out
}

/// "Status: " as ASCII bytes.
pub open spec fn line_head() -> Seq<u8> {
    seq![83u8, 116u8, 97u8, 116u8, 117u8, 115u8, 58u8, 32u8]
}

/// " message: " as ASCII bytes.
pub open spec fn line_mid() -> Seq<u8> {
    seq![32u8, 109u8, 101u8, 115u8, 115u8, 97u8, 103u8, 101u8, 58u8, 32u8]
}

/// The status line delivered to the caller's relay for one status payload:
/// the numeric current-state code and the NUL-terminated description,
/// terminated by a newline.
pub open spec fn line_of(current: int, desc: Seq<u8>) -> Seq<u8> {
    line_head() + dec_of_int(current) + line_mid() + nul_prefix(desc) + seq![10u8]
}

/// Render the relay line for one status payload.
pub fn format_status_line(st: &Status) -> (line: Vec<u8>)
    ensures
        line@ == line_of(st.current as int, st.desc@),
{
    let mut out: Vec<u8> = Vec::new();
    out.push(83);
    out.push(116);
    out.push(97);
    out.push(116);
    out.push(117);
    out.push(115);
    out.push(58);
    out.push(32);
    assert(out@ =~= line_head());
    push_dec_i32(st.current, &mut out);
    out.push(32);
    out.push(109);
    out.push(101);
    out.push(115);
    out.push(115);
    out.push(97);
    out.push(103);
    out.push(101);
    out.push(58);
    out.push(32);
    assert(out@ =~= line_head() + dec_of_int(st.current as int) + line_mid());
    push_nul_prefix_from(&st.desc, 0, &mut out);
    out.push(10);
    proof {
        assert(st.desc@.skip(0) =~= st.desc@);
        assert(out@ =~= line_of(st.current as int, st.desc@));
    }
    out
}

/// The relay line for one incoming message: `Some` exactly when the message
/// carries the status case, and then the formatted line for that payload.
/// Messages of any other kind produce no line.
pub fn status_line(msg: &IpcMessage) -> (r: Option<Vec<u8>>)
    ensures
        match r {
            Some(line) => msg.data matches crate::ipc_message::MsgData::Status(st)
                && line@ == line_of(st.current as int, st.desc@),
            None => !(msg.data matches crate::ipc_message::MsgData::Status(_)),
        },
{
    match msg.status_case() {
        Some(st) => Some(format_status_line(st)),
        None => None,
    }
}

} // verus!
