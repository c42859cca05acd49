//! Greedy collapse decoding of the recognition model's per-position
//! label sequence: blanks (label 0) are dropped, and a label equal to
//! the last non-blank label seen is dropped as a repeat; every other
//! label is rendered through the character set.

use vstd::prelude::*;

verus! {

/// The glyph table as sequences of characters.
pub open spec fn charset_views(charset: Seq<String>) -> Seq<Seq<char>> {
    charset.map_values(|g: String| g@)
}

/// The decoded text of `labels` under glyph table `charset`, where
/// `last` is the most recent non-blank label already seen (0 at the
/// start: nothing seen yet).
pub open spec fn spec_collapse(labels: Seq<i64>, charset: Seq<Seq<char>>, last: i64) -> Seq<char>
    decreases labels.len(),
{
    if labels.len() == 0 {
        Seq::empty()
    } else {
        let v = labels[0];
        if v != 0 && v != last {
            charset[v as int] + spec_collapse(labels.skip(1), charset, v)
        } else {
            spec_collapse(labels.skip(1), charset, last)
        }
    }
}

/// Every label indexes into a table of `n` glyphs.
pub open spec fn labels_in_bounds(labels: Seq<i64>, n: int) -> bool {
    forall|i: int| 0 <= i < labels.len() ==> 0 <= #[trigger] labels[i] < n
}

/// Decodes a label sequence whose labels are known to index the glyph
/// table.
pub fn decode_labels(labels: &Vec<i64>, charset: &Vec<String>) -> (r: String)
    requires
        labels_in_bounds(labels@, charset@.len() as int),
    ensures
        r@ == spec_collapse(labels@, charset_views(charset@), 0),
{
    let ghost cv = charset_views(charset@);
    let clen = charset.len();
    let mut out = String::new();
    let mut last: i64 = 0;
    let mut i: usize = 0;
    proof {
        assert(labels@.skip(0) =~= labels@);
        assert(out@ + spec_collapse(labels@, cv, 0) =~= spec_collapse(labels@, cv, 0));
    }
    while i < labels.len()
        invariant
            0 <= i <= labels@.len(),
            labels_in_bounds(labels@, charset@.len() as int),
            clen == charset@.len(),
            cv == charset_views(charset@),
            out@ + spec_collapse(labels@.skip(i as int), cv, last) == spec_collapse(
                labels@,
                cv,
                0,
            ),
        decreases labels@.len() - i,
    {
        let v = labels[i];
        let ghost last0 = last;
        proof {
            assert(0 <= labels@[i as int] < charset@.len());
            assert(labels@.skip(i as int)[0] == labels@[i as int]);
            assert(labels@.skip(i as int).skip(1) =~= labels@.skip(i as int + 1));
        }
        if v != 0 && v != last {
            let ghost out0 = out@;
            out.append(charset[v as usize].as_str());
            last = v;
            proof {
                assert(cv[v as int] == charset@[v as int]@);
                assert(out@ == out0 + charset@[v as int]@);
                assert(spec_collapse(labels@.skip(i as int), cv, last0) == cv[v as int]
                    + spec_collapse(labels@.skip(i as int + 1), cv, v));
                assert(out@ + spec_collapse(labels@.skip(i as int + 1), cv, last) =~= out0
                    + spec_collapse(labels@.skip(i as int), cv, last0));
            }
        } else {
            proof {
                assert(spec_collapse(labels@.skip(i as int), cv, last0) == spec_collapse(
                    labels@.skip(i as int + 1),
                    cv,
                    last0,
                ));
            }
        }
        i = i + 1;
    }
    proof {
        assert(labels@.skip(labels@.len() as int).len() == 0);
        assert(out@ =~= spec_collapse(labels@, cv, 0));
    }
    out
}

/// Decodes a label sequence after checking it against the glyph table:
/// `Some` exactly when every label is in bounds.
pub fn decode_labels_checked(labels: &Vec<i64>, charset: &Vec<String>) -> (r: Option<String>)
    ensures
        match r {
            Some(s) => labels_in_bounds(labels@, charset@.len() as int) && s@ == spec_collapse(
                labels@,
                charset_views(charset@),
                0,
            ),
            None => !labels_in_bounds(labels@, charset@.len() as int),
        },
{
    let mut i: usize = 0;
    while i < labels.len()
        invariant
            0 <= i <= labels@.len(),
            forall|j: int| 0 <= j < i ==> 0 <= #[trigger] labels@[j] < charset@.len(),
        decreases labels@.len() - i,
    {
        let v = labels[i];
        if v < 0 || v as u64 >= charset.len() as u64 {
            return None;
        }
        i = i + 1;
    }
    Some(decode_labels(labels, charset))
}

} // verus!
