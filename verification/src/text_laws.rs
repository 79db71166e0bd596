//! Properties of trimming, line splitting, the scan's SSID list and the
//! command and record lines, each stated over inputs and results.
use vstd::prelude::*;
use vstd::utf8::{valid_utf8, decode_utf8};
use crate::text::{is_white_space, trim, trim_start, trim_end, newline_pieces, text_lines,
    lemma_newline_pieces_nonempty};
use crate::network::{scan_result, connect_command_spec, credential_record_spec};

verus! {

/// Each line followed by a newline, all joined.
pub open spec fn newline_terminated(ls: Seq<Seq<char>>) -> Seq<char>
    decreases ls.len(),
{
    if ls.len() == 0 {
        Seq::empty()
    } else {
        newline_terminated(ls.drop_last()) + ls.last() + seq!['\n']
    }
}

proof fn lemma_pieces_rebuild(s: Seq<char>)
    ensures
        newline_terminated(newline_pieces(s).drop_last()) + newline_pieces(s).last() == s,
    decreases s.len(),
{
    lemma_newline_pieces_nonempty(s);
    if s.len() == 0 {
        assert(newline_pieces(s).drop_last() =~= Seq::<Seq<char>>::empty());
        assert(newline_terminated(newline_pieces(s).drop_last()) + newline_pieces(s).last() =~= s);
    } else {
        let t = s.drop_last();
        lemma_pieces_rebuild(t);
        lemma_newline_pieces_nonempty(t);
        let p = newline_pieces(t);
        if s.last() == '\n' {
            assert(newline_pieces(s).drop_last() =~= p);
            assert(p.drop_last() =~= p.drop_last());
            assert(newline_terminated(p) == newline_terminated(p.drop_last()) + p.last() + seq![
                '\n',
            ]);
            assert(newline_terminated(newline_pieces(s).drop_last()) + newline_pieces(s).last()
                =~= s);
        } else {
            assert(newline_pieces(s).drop_last() =~= p.drop_last());
            assert(newline_pieces(s).last() =~= p.last().push(s.last()));
            assert(newline_terminated(newline_pieces(s).drop_last()) + newline_pieces(s).last()
                =~= t.push(s.last()));
            assert(t.push(s.last()) =~= s);
        }
    }
}

/// The lines of a text, each followed by a newline, give back the text (with
/// a final newline added when it lacked one). With `lemma_lines_hold_no_newline`
/// this pins the lines down: line `k` is the text between the `k`-th newline
/// and the next.
pub proof fn lemma_lines_rebuild_text(t: Seq<char>)
    ensures
        newline_terminated(text_lines(t)) == (if t.len() == 0 || t.last() == '\n' {
            t
        } else {
            t.push('\n')
        }),
{
    if t.len() == 0 {
    } else if t.last() == '\n' {
        let s = t.drop_last();
        lemma_pieces_rebuild(s);
        lemma_newline_pieces_nonempty(s);
        let p = newline_pieces(s);
        assert(p =~= p.drop_last().push(p.last()));
        assert(newline_terminated(p) == newline_terminated(p.drop_last()) + p.last() + seq!['\n']);
        assert(s.push('\n') =~= t);
    } else {
        lemma_pieces_rebuild(t);
        lemma_newline_pieces_nonempty(t);
        let p = newline_pieces(t);
        assert(p =~= p.drop_last().push(p.last()));
        assert(newline_terminated(p) == newline_terminated(p.drop_last()) + p.last() + seq!['\n']);
    }
}

proof fn lemma_trim_start_skips_whitespace(s: Seq<char>) -> (k: int)
    ensures
        0 <= k <= s.len(),
        trim_start(s) == s.skip(k),
        forall|i: int| 0 <= i < k ==> is_white_space(#[trigger] s[i]),
    decreases s.len(),
{
    if s.len() > 0 && is_white_space(s[0]) {
        let k1 = lemma_trim_start_skips_whitespace(s.drop_first());
        assert(s.drop_first().skip(k1) =~= s.skip(k1 + 1));
        assert forall|i: int| 0 <= i < k1 + 1 implies is_white_space(#[trigger] s[i]) by {
            if i > 0 {
                assert(s[i] == s.drop_first()[i - 1]);
            }
        }
        k1 + 1
    } else {
        assert(s.skip(0) =~= s);
        0
    }
}

proof fn lemma_trim_end_takes_prefix(s: Seq<char>) -> (m: int)
    ensures
        0 <= m <= s.len(),
        trim_end(s) == s.take(m),
        forall|i: int| m <= i < s.len() ==> is_white_space(#[trigger] s[i]),
    decreases s.len(),
{
    if s.len() > 0 && is_white_space(s.last()) {
        let m1 = lemma_trim_end_takes_prefix(s.drop_last());
        assert(s.drop_last().take(m1) =~= s.take(m1));
        assert forall|i: int| m1 <= i < s.len() implies is_white_space(#[trigger] s[i]) by {
            if i < s.len() - 1 {
                assert(s[i] == s.drop_last()[i]);
            }
        }
        m1
    } else {
        assert(s.take(s.len() as int) =~= s);
        s.len() as int
    }
}

/// Trimming keeps one contiguous stretch of the text and cuts off only
/// whitespace before and after it. With `lemma_trim_leaves_no_outer_whitespace`
/// this pins the result down.
pub proof fn lemma_trim_cuts_only_outer_whitespace(s: Seq<char>) -> (r: (int, int))
    ensures
        0 <= r.0 <= r.1 <= s.len(),
        trim(s) == s.subrange(r.0, r.1),
        forall|i: int| 0 <= i < r.0 ==> is_white_space(#[trigger] s[i]),
        forall|i: int| r.1 <= i < s.len() ==> is_white_space(#[trigger] s[i]),
{
    let k = lemma_trim_start_skips_whitespace(s);
    let t = s.skip(k);
    let m = lemma_trim_end_takes_prefix(t);
    assert(t.take(m) =~= s.subrange(k, k + m));
    assert forall|i: int| k + m <= i < s.len() implies is_white_space(#[trigger] s[i]) by {
        assert(s[i] == t[i - k]);
    }
    (k, k + m)
}

/// A successful scan with readable output lists one SSID per line of the
/// output, in order, entry `k` being line `k` trimmed; any other scan lists
/// nothing.
pub proof fn lemma_scan_lists_every_line(success: bool, stdout: Seq<u8>)
    ensures
        success && valid_utf8(stdout) ==> ({
            let lines = text_lines(decode_utf8(stdout));
            &&& scan_result(success, stdout) is Some
            &&& scan_result(success, stdout)->0.len() == lines.len()
            &&& forall|k: int|
                0 <= k < lines.len() ==> scan_result(success, stdout)->0[k] == trim(
                    #[trigger] lines[k],
                )
        }),
        !(success && valid_utf8(stdout)) ==> scan_result(success, stdout) is None,
{
}

/// The connect command line is the fixed words, then the SSID whole, then
/// " password ", then the password whole and verbatim at its end.
pub proof fn lemma_connect_command_keeps_ssid_and_password(ssid: Seq<char>, password: Seq<char>)
    ensures
        ({
            let c = connect_command_spec(ssid, password);
            &&& c.len() == 31 + ssid.len() + 10 + password.len()
            &&& c.take(31) == "sudo nmcli device wifi connect "@
            &&& c.subrange(31, 31 + ssid.len() as int) == ssid
            &&& c.subrange(31 + ssid.len() as int, 41 + ssid.len() as int) == " password "@
            &&& c.skip(41 + ssid.len() as int) == password
        }),
{
    reveal_strlit("sudo nmcli device wifi connect ");
    reveal_strlit(" password ");
    let c = connect_command_spec(ssid, password);
    assert(c.take(31) =~= "sudo nmcli device wifi connect "@);
    assert(c.subrange(31, 31 + ssid.len() as int) =~= ssid);
    assert(c.subrange(31 + ssid.len() as int, 41 + ssid.len() as int) =~= " password "@);
    assert(c.skip(41 + ssid.len() as int) =~= password);
}

/// The saved record is the SSID whole, ": ", the password whole, and one
/// newline at the end.
pub proof fn lemma_record_keeps_ssid_and_password(ssid: Seq<char>, password: Seq<char>)
    ensures
        ({
            let r = credential_record_spec(ssid, password);
            &&& r.len() == ssid.len() + 2 + password.len() + 1
            &&& r.take(ssid.len() as int) == ssid
            &&& r.subrange(ssid.len() as int, ssid.len() as int + 2) == ": "@
            &&& r.subrange(ssid.len() as int + 2, ssid.len() as int + 2 + password.len() as int) == password
            &&& r.last() == '\n'
        }),
{
    reveal_strlit(": ");
    reveal_strlit("\n");
    let r = credential_record_spec(ssid, password);
    assert(r.take(ssid.len() as int) =~= ssid);
    assert(r.subrange(ssid.len() as int, ssid.len() as int + 2) =~= ": "@);
    assert(r.subrange(ssid.len() as int + 2, ssid.len() as int + 2 + password.len() as int) =~= password);
}

} // verus!
