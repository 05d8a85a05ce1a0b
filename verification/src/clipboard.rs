use vstd::prelude::*;

verus! {

/// The unit sequence a raw clipboard buffer decodes to: every UTF-16 code
/// unit before the first terminating zero unit, with every carriage return
/// removed. Newlines are represented solely by line-feed units downstream.
pub open spec fn spec_decoded(raw: Seq<u16>) -> Seq<u16>
    decreases raw.len(),
{
    if raw.len() == 0 {
        Seq::<u16>::empty()
    } else if raw[0] == 0 {
        Seq::<u16>::empty()
    } else if raw[0] == 13 {
        spec_decoded(raw.skip(1))
    } else {
        seq![raw[0]] + spec_decoded(raw.skip(1))
    }
}

/// Decode a raw clipboard buffer: copy out code units until the terminating
/// zero unit (or the end of the buffer), dropping every carriage return.
pub fn decode_clipboard(raw: &Vec<u16>) -> (units: Vec<u16>)
    ensures
        units@ == spec_decoded(raw@),
{
    let mut units: Vec<u16> = Vec::new();
    let mut i: usize = 0;
    proof {
        assert(raw@.skip(0) =~= raw@);
    }
    while i < raw.len()
        invariant
            0 <= i <= raw@.len(),
            spec_decoded(raw@) == units@ + spec_decoded(raw@.skip(i as int)),
        decreases raw@.len() - i,
    {
        let u = raw[i];
        proof {
            assert(raw@.skip(i as int)[0] == raw@[i as int]);
            assert(raw@.skip(i as int).skip(1) =~= raw@.skip(i as int + 1));
        }
        if u == 0 {
            proof {
                assert(units@ + spec_decoded(raw@.skip(i as int)) =~= units@);
            }
            return units;
        }
        if u != 13 {
            units.push(u);
            proof {
                assert(spec_decoded(raw@) =~= units@ + spec_decoded(raw@.skip(i as int + 1)));
            }
        }
        i += 1;
    }
    proof {
        assert(spec_decoded(raw@.skip(raw@.len() as int)) =~= Seq::<u16>::empty());
        assert(units@ + spec_decoded(raw@.skip(raw@.len() as int)) =~= units@);
    }
    units
}

/// A decoded clipboard sequence never contains a carriage return.
pub proof fn lemma_decoded_has_no_carriage_return(raw: Seq<u16>)
    ensures
        forall|i: int| 0 <= i < spec_decoded(raw).len() ==> spec_decoded(raw)[i] != 13,
    decreases raw.len(),
{
    if raw.len() == 0 || raw[0] == 0 {
    } else {
        lemma_decoded_has_no_carriage_return(raw.skip(1));
        assert forall|i: int| 0 <= i < spec_decoded(raw).len() implies spec_decoded(raw)[i] != 13 by {
            if raw[0] == 13 {
                assert(spec_decoded(raw) == spec_decoded(raw.skip(1)));
            } else if i > 0 {
                assert(spec_decoded(raw)[i] == spec_decoded(raw.skip(1))[i - 1]);
            }
        }
    }
}

/// Every line feed that stands before the terminator survives decoding: a
/// buffer holding a line feed with no earlier zero unit decodes to a sequence
/// that still contains that line feed.
pub proof fn lemma_decoded_keeps_line_feeds(raw: Seq<u16>, j: int)
    requires
        0 <= j < raw.len(),
        raw[j] == 10,
        forall|k: int| 0 <= k <= j ==> raw[k] != 0,
    ensures
        spec_decoded(raw).contains(10),
    decreases raw.len(),
{
    if j == 0 {
        assert(spec_decoded(raw)[0] == 10);
    } else {
        let tail = raw.skip(1);
        assert(tail[j - 1] == 10);
        assert(forall|k: int| 0 <= k <= j - 1 ==> tail[k] != 0);
        lemma_decoded_keeps_line_feeds(tail, j - 1);
        let w = choose|w: int| 0 <= w < spec_decoded(tail).len() && spec_decoded(tail)[w] == 10;
        if raw[0] == 13 {
            assert(spec_decoded(raw)[w] == 10);
        } else {
            assert(spec_decoded(raw)[w + 1] == 10);
        }
    }
}

} // verus!
