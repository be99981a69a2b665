//! Quoting of a Windows path for the PowerShell playback script.
//!
//! On Windows the player is `powershell` running a one-line script that
//! constructs a `Media.SoundPlayer` around the single-quoted path. Before the
//! path is spliced into that fragment, every backslash in it is doubled; no
//! other escaping is applied.

use vstd::prelude::*;
use vstd::string::StrSliceExecFns;
use vstd::string::StringExecFns;

use crate::text::push_char;

verus! {

/// The transform applied to a path before it is spliced into the
/// single-quoted script fragment: every backslash becomes two, every other
/// character is kept as it is, in order.
pub open spec fn spec_double_backslashes(s: Seq<char>) -> Seq<char>
    decreases s.len(),
{
    if s.len() == 0 {
        Seq::empty()
    } else {
        spec_double_backslashes(s.drop_last()) + (if s.last() == '\\' {
            seq!['\\', '\\']
        } else {
            seq![s.last()]
        })
    }
}

/// Returns the input with every backslash doubled and everything else kept.
pub fn double_backslashes(s: &str) -> (r: String)
    ensures
        r@ == spec_double_backslashes(s@),
{
    let len: usize = s.unicode_len();
    let mut out = String::new();
    let mut i: usize = 0;
    while i < len
        invariant
            i <= len,
            len == s@.len(),
            out@ == spec_double_backslashes(s@.subrange(0, i as int)),
        decreases len - i,
    {
        let c = s.get_char(i);
        if c == '\\' {
            push_char(&mut out, '\\');
            push_char(&mut out, '\\');
        } else {
            push_char(&mut out, c);
        }
        proof {
            let pre = s@.subrange(0, i as int);
            let post = s@.subrange(0, i as int + 1);
            assert(post.drop_last() =~= pre);
            assert(post.last() == s@[i as int]);
        }
        i = i + 1;
    }
    proof {
        assert(s@.subrange(0, len as int) =~= s@);
    }
    out
}

/// The one-line PowerShell script that plays the given path: the path, with
/// its backslashes doubled, spliced into the single-quoted
/// `Media.SoundPlayer` constructor.
pub open spec fn spec_windows_script(path: Seq<char>) -> Seq<char> {
    "(New-Object Media.SoundPlayer '"@ + spec_double_backslashes(path) + "').PlaySync()"@
}

/// Builds the PowerShell script fragment that plays the given path.
pub fn windows_player_script(path: &str) -> (r: String)
    ensures
        r@ == spec_windows_script(path@),
{
    let mut out: String = "(New-Object Media.SoundPlayer '".to_owned();
    let doubled = double_backslashes(path);
    out.append(doubled.as_str());
    out.append("').PlaySync()");
    out
}

/// Doubling distributes over concatenation: transforming a path piece by
/// piece gives the same text as transforming it whole.
pub proof fn lemma_double_backslashes_append(a: Seq<char>, b: Seq<char>)
    ensures
        spec_double_backslashes(a + b) == spec_double_backslashes(a) + spec_double_backslashes(b),
    decreases b.len(),
{
    if b.len() == 0 {
        assert(a + b =~= a);
        assert(spec_double_backslashes(b) =~= Seq::<char>::empty());
        assert(spec_double_backslashes(a) + spec_double_backslashes(b)
            =~= spec_double_backslashes(a));
    } else {
        lemma_double_backslashes_append(a, b.drop_last());
        assert((a + b).drop_last() =~= a + b.drop_last());
        assert((a + b).last() == b.last());
        assert(spec_double_backslashes(a + b) =~= spec_double_backslashes(a)
            + spec_double_backslashes(b));
    }
}

/// A single character is doubled exactly when it is a backslash.
pub proof fn lemma_double_backslashes_single(c: char)
    ensures
        spec_double_backslashes(seq![c]) == (if c == '\\' {
            seq!['\\', '\\']
        } else {
            seq![c]
        }),
{
    let s = seq![c];
    assert(s.len() == 1);
    assert(s.last() == c);
    assert(s.drop_last() =~= Seq::<char>::empty());
    assert(spec_double_backslashes(Seq::<char>::empty()) == Seq::<char>::empty());
    if c == '\\' {
        assert(spec_double_backslashes(s) =~= seq!['\\', '\\']);
    } else {
        assert(spec_double_backslashes(s) =~= seq![c]);
    }
}

/// Text that holds no backslash passes through the transform unchanged.
pub proof fn lemma_double_backslashes_plain(s: Seq<char>)
    requires
        forall|i: int| 0 <= i < s.len() ==> s[i] != '\\',
    ensures
        spec_double_backslashes(s) == s,
    decreases s.len(),
{
    if s.len() == 0 {
        assert(spec_double_backslashes(s) =~= s);
    } else {
        assert(forall|i: int| 0 <= i < s.drop_last().len() ==> s.drop_last()[i] != '\\');
        lemma_double_backslashes_plain(s.drop_last());
        assert(s.last() != '\\');
        assert(s.drop_last() + seq![s.last()] =~= s);
    }
}

} // verus!
