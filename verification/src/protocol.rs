//! The wire protocol a connection handler speaks, modelled over byte
//! sequences: a fixed ASCII greeting, then (after the synchronous
//! computation step) a fixed completion marker ending in a newline, then a
//! transparent echo of whatever the peer sends until it closes. The actual
//! socket reads and writes happen outside the library; these functions fix
//! the bytes and prove what a whole session carries.

use vstd::prelude::*;

verus! {

/// The greeting bytes, `some heavy computing...` in ASCII.
pub open spec fn greeting_spec() -> Seq<u8> {
    seq![
        115u8, 111u8, 109u8, 101u8, 32u8, 104u8, 101u8, 97u8, 118u8, 121u8, 32u8, 99u8, 111u8, 109u8, 112u8,
        117u8, 116u8, 105u8, 110u8, 103u8, 46u8, 46u8, 46u8,
    ]
}

/// The completion marker bytes, `done. echoing` followed by a newline.
pub open spec fn completion_marker_spec() -> Seq<u8> {
    seq![100u8, 111u8, 110u8, 101u8, 46u8, 32u8, 101u8, 99u8, 104u8, 111u8, 105u8, 110u8, 103u8, 10u8]
}

/// Everything the client receives over a full session in which it sent the
/// bytes `input`: the greeting, the completion marker, then `input` echoed
/// back unchanged.
pub open spec fn session_transcript_spec(input: Seq<u8>) -> Seq<u8> {
    greeting_spec() + completion_marker_spec() + input
}

/// The greeting the handler writes before its computation step.
pub fn greeting() -> (g: Vec<u8>)
    ensures
        g@ == greeting_spec(),
{
    let mut g: Vec<u8> = Vec::new();
    g.push(115u8);
    g.push(111u8);
    g.push(109u8);
    g.push(101u8);
    g.push(32u8);
    g.push(104u8);
    g.push(101u8);
    g.push(97u8);
    g.push(118u8);
    g.push(121u8);
    g.push(32u8);
    g.push(99u8);
    g.push(111u8);
    g.push(109u8);
    g.push(112u8);
    g.push(117u8);
    g.push(116u8);
    g.push(105u8);
    g.push(110u8);
    g.push(103u8);
    g.push(46u8);
    g.push(46u8);
    g.push(46u8);
    proof {
        assert(g@ =~= greeting_spec());
    }
    g
}

/// The completion marker the handler writes after its computation step.
pub fn completion_marker() -> (m: Vec<u8>)
    ensures
        m@ == completion_marker_spec(),
{
    let mut m: Vec<u8> = Vec::new();
    m.push(100u8);
    m.push(111u8);
    m.push(110u8);
    m.push(101u8);
    m.push(46u8);
    m.push(32u8);
    m.push(101u8);
    m.push(99u8);
    m.push(104u8);
    m.push(111u8);
    m.push(105u8);
    m.push(110u8);
    m.push(103u8);
    m.push(10u8);
    proof {
        assert(m@ =~= completion_marker_spec());
    }
    m
}

/// What the relay writes back for one chunk read from the peer: the same
/// bytes, unchanged.
pub fn echo_reply(chunk: &[u8]) -> (reply: Vec<u8>)
    ensures
        reply@ == chunk@,
{
    let mut reply: Vec<u8> = Vec::new();
    let mut i: usize = 0;
    while i < chunk.len()
        invariant
            i <= chunk@.len(),
            reply@ == chunk@.subrange(0, i as int),
        decreases chunk@.len() - i,
    {
        reply.push(chunk[i]);
        i = i + 1;
    }
    proof {
        assert(reply@ =~= chunk@);
    }
    reply
}

/// The full session transcript for a client that sent `input`, as one byte
/// vector.
pub fn session_transcript(input: &[u8]) -> (t: Vec<u8>)
    ensures
        t@ == session_transcript_spec(input@),
{
    let mut t = greeting();
    let marker = completion_marker();
    let mut i: usize = 0;
    while i < marker.len()
        invariant
            i <= marker@.len(),
            marker@ == completion_marker_spec(),
            t@ == greeting_spec() + marker@.subrange(0, i as int),
        decreases marker@.len() - i,
    {
        t.push(marker[i]);
        i = i + 1;
    }
    let echoed = echo_reply(input);
    let mut j: usize = 0;
    while j < echoed.len()
        invariant
            j <= echoed@.len(),
            echoed@ == input@,
            t@ == greeting_spec() + completion_marker_spec() + input@.subrange(0, j as int),
        decreases echoed@.len() - j,
    {
        t.push(echoed[j]);
        j = j + 1;
    }
    proof {
        assert(t@ =~= session_transcript_spec(input@));
    }
    t
}

/// Protocol round trip: after the greeting, the client receives exactly the
/// completion marker followed by its own bytes `input`, echoed unchanged —
/// the transcript holds nothing else.
pub proof fn lemma_round_trip(input: Seq<u8>)
    ensures
        session_transcript_spec(input).len() == greeting_spec().len()
            + completion_marker_spec().len() + input.len(),
        session_transcript_spec(input).subrange(0, greeting_spec().len() as int)
            == greeting_spec(),
        session_transcript_spec(input).subrange(
            greeting_spec().len() as int,
            (greeting_spec().len() + completion_marker_spec().len()) as int,
        ) == completion_marker_spec(),
        session_transcript_spec(input).subrange(
            (greeting_spec().len() + completion_marker_spec().len()) as int,
            session_transcript_spec(input).len() as int,
        ) == input,
{
    let t = session_transcript_spec(input);
    let g = greeting_spec().len() as int;
    let m = completion_marker_spec().len() as int;
    assert(t.subrange(0, g) =~= greeting_spec());
    assert(t.subrange(g, g + m) =~= completion_marker_spec());
    assert(t.subrange(g + m, t.len() as int) =~= input);
}

/// Connection independence: in any sequence of serviced connections, each
/// connection's transcript is a function of that connection's own input
/// alone — servicing one connection leaves no state behind that could alter
/// the bytes a later connection observes.
pub proof fn lemma_connection_independence(inputs: Seq<Seq<u8>>, i: int, j: int)
    requires
        0 <= i < inputs.len(),
        0 <= j < inputs.len(),
        inputs[i] == inputs[j],
    ensures
        session_transcripts_spec(inputs)[i] == session_transcripts_spec(inputs)[j],
        session_transcripts_spec(inputs)[i] == session_transcript_spec(inputs[i]),
{
}

/// The transcripts of a whole run of the server: one per serviced
/// connection, each determined by that connection's input alone.
pub open spec fn session_transcripts_spec(inputs: Seq<Seq<u8>>) -> Seq<Seq<u8>> {
    inputs.map_values(|b: Seq<u8>| session_transcript_spec(b))
}

} // verus!
