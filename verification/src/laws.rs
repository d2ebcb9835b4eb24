//! What holds of every session, whatever the platform answers.
//!
//! The codec is trusted to keep the timestamps it is given; nothing here can
//! check that. The laws about identities therefore speak of codecs that do:
//! their premises say what the codec is taken to do, and their conclusions
//! say what the caller then gets.

use vstd::prelude::*;
use vstd::seq_lib::*;
use vstd::multiset::*;
use crate::identity::{
    carries, identity_of_bits, identity_of_timestamp, lemma_identity_round_trip, timestamp_bits,
    timestamp_of_identity, wait_of_timeout, TRY_AGAIN_LATER,
};
use crate::options::{format_of, CodecType, KeyName, OptionValue};
use crate::session::{input_verdict, output_verdict, InputRequest, OutputRequest};
use crate::surface::{bridge_of, Extent3d};

verus! {

/// The timestamps under which a sequence of identities is queued.
pub open spec fn queued_timestamps(pushed: Seq<usize>) -> Seq<int> {
    pushed.map_values(|frame_index: usize| timestamp_of_identity(frame_index) as int)
}

/// The bits of a sequence of timestamps handed out by the codec.
pub open spec fn delivered_bits(delivered: Seq<i64>) -> Seq<int> {
    delivered.map_values(|presentation_time_us: i64| timestamp_bits(presentation_time_us))
}

/// The identities that successive retrievals read from a sequence of
/// timestamps handed out by the codec.
pub open spec fn pulled_identities(delivered: Seq<i64>) -> Seq<usize> {
    delivered.map_values(|presentation_time_us: i64| identity_of_timestamp(presentation_time_us))
}

/// Applying a function to every element of two sequences that are
/// rearrangements of each other gives rearrangements of each other.
proof fn lemma_map_keeps_rearrangement<A, B>(s1: Seq<A>, s2: Seq<A>, f: spec_fn(A) -> B)
    requires
        s1.to_multiset() == s2.to_multiset(),
    ensures
        s1.map_values(f).to_multiset() == s2.map_values(f).to_multiset(),
    decreases s1.len(),
{
    broadcast use group_to_multiset_ensures;
    broadcast use group_multiset_axioms;

    if s1.len() > 0 {
        let last = s1.len() - 1;
        let a = s1.last();
        assert(s1.contains(a));
        assert(s2.to_multiset().count(a) > 0);
        let i = s2.index_of(a);
        assert(s1.remove(last).to_multiset() == s2.remove(i).to_multiset());
        lemma_map_keeps_rearrangement(s1.remove(last), s2.remove(i), f);
        let m1 = s1.map_values(f);
        let m2 = s2.map_values(f);
        assert(m1.remove(last) =~= s1.remove(last).map_values(f));
        assert(m2.remove(i) =~= s2.remove(i).map_values(f));
        assert(m1.remove(last).to_multiset() == m1.to_multiset().remove(f(a)));
        assert(m2.remove(i).to_multiset() == m2.to_multiset().remove(f(a)));
        assert(m1.contains(m1[last]));
        assert(m2.contains(m2[i]));
        assert(m1.to_multiset() =~= m1.to_multiset().remove(f(a)).insert(f(a)));
        assert(m2.to_multiset() =~= m2.to_multiset().remove(f(a)).insert(f(a)));
    } else {
        assert(s2.to_multiset().len() == 0);
        assert(s1.map_values(f) =~= Seq::<B>::empty());
        assert(s2.map_values(f) =~= Seq::<B>::empty());
    }
}

/// A session set up for frames of a size the platform can express has a
/// surface of exactly that size, tells the codec exactly that size, and
/// copies exactly that size into the caller's slice with every retrieval.
pub proof fn lemma_frames_have_the_session_size(
    codec_type: CodecType,
    video_size: (u32, u32),
    extra_options: Seq<(Seq<char>, OptionValue)>,
    request: OutputRequest,
    index_or_error: isize,
    presentation_time_us: i64,
)
    requires
        video_size.0 <= i32::MAX,
        video_size.1 <= i32::MAX,
        request.video_size == video_size,
    ensures
        bridge_of(video_size).width == video_size.0,
        bridge_of(video_size).height == video_size.1,
        format_of(codec_type, video_size, extra_options)[1] == (
            KeyName::Width,
            OptionValue::Int32(video_size.0 as i32),
        ),
        format_of(codec_type, video_size, extra_options)[2] == (
            KeyName::Height,
            OptionValue::Int32(video_size.1 as i32),
        ),
        output_verdict(request, index_or_error, presentation_time_us) matches Ok(Some(release))
            ==> release.transfer.copy.extent == (Extent3d {
            width: video_size.0,
            height: video_size.1,
            depth_or_array_layers: 1,
        }) && release.transfer.copy.destination.origin.z == request.slice_index,
{
}

/// With a codec that hands out, in whatever order, exactly the timestamps it
/// was given, successive retrievals return a rearrangement of the identities
/// that were pushed; where those were distinct, each comes back once.
pub proof fn lemma_pulls_rearrange_pushes(pushed: Seq<usize>, delivered: Seq<i64>)
    requires
        delivered_bits(delivered).to_multiset() == queued_timestamps(pushed).to_multiset(),
    ensures
        pulled_identities(delivered).to_multiset() == pushed.to_multiset(),
        pushed.no_duplicates() ==> pulled_identities(delivered).no_duplicates(),
{
    let decode = |bits: int| identity_of_bits(bits);
    lemma_map_keeps_rearrangement(delivered_bits(delivered), queued_timestamps(pushed), decode);
    assert(delivered_bits(delivered).map_values(decode) =~= pulled_identities(delivered));
    assert(queued_timestamps(pushed).map_values(decode) =~= pushed);
    if pushed.no_duplicates() {
        pushed.lemma_multiset_has_no_duplicates();
        pulled_identities(delivered).lemma_multiset_has_no_duplicates_conv();
    }
}

/// With a codec that hands out the timestamps it was given in the order it
/// was given them, successive retrievals return the pushed identities in the
/// order they were pushed.
pub proof fn lemma_pulls_follow_pushes_in_order(pushed: Seq<usize>, delivered: Seq<i64>)
    requires
        delivered.len() == pushed.len(),
        forall|i: int|
            0 <= i < pushed.len() ==> carries(
                #[trigger] delivered[i],
                timestamp_of_identity(pushed[i]),
            ),
    ensures
        pulled_identities(delivered) == pushed,
{
    assert forall|i: int| 0 <= i < pushed.len() implies pulled_identities(delivered)[i]
        == pushed[i] by {
        lemma_identity_round_trip(pushed[i], delivered[i]);
    }
    assert(pulled_identities(delivered) =~= pushed);
}

/// While the codec has no free input buffer, a frame is declined without
/// error as often as it is offered, and it is accepted, under its own
/// identity, as soon as the codec hands out a buffer. Offering a frame does
/// not touch the session, and a timeout of zero asks the codec not to wait.
pub proof fn lemma_full_pool_declines_until_a_buffer_frees(
    request: InputRequest,
    answers: Seq<isize>,
)
    requires
        answers.len() > 0,
        forall|i: int| 0 <= i < answers.len() - 1 ==> answers[i] == TRY_AGAIN_LATER,
        answers.last() >= 0,
    ensures
        forall|i: int|
            0 <= i < answers.len() - 1 ==> input_verdict(request, #[trigger] answers[i]) matches Ok(
                None,
            ),
        input_verdict(request, answers.last()) matches Ok(Some(submission))
            && submission.buffer_index == answers.last() && submission.data == request.data
            && submission.presentation_time_us == timestamp_of_identity(request.frame_index),
        wait_of_timeout(0) == 0,
{
}

/// With a codec that hands out only timestamps it was given, a retrieval
/// never returns an identity that was not pushed before.
pub proof fn lemma_pulled_identity_was_pushed(
    pushed: Seq<usize>,
    request: OutputRequest,
    index_or_error: isize,
    presentation_time_us: i64,
)
    requires
        index_or_error >= 0 ==> exists|i: int|
            0 <= i < pushed.len() && carries(
                presentation_time_us,
                timestamp_of_identity(#[trigger] pushed[i]),
            ),
    ensures
        output_verdict(request, index_or_error, presentation_time_us) matches Ok(Some(release))
            ==> pushed.contains(release.transfer.frame_index),
{
    if index_or_error >= 0 {
        let i = choose|i: int|
            0 <= i < pushed.len() && carries(
                presentation_time_us,
                timestamp_of_identity(#[trigger] pushed[i]),
            );
        lemma_identity_round_trip(pushed[i], presentation_time_us);
    }
}

} // verus!
