//! Conversation context folder: linearizes the caller-supplied sequence of
//! prior turns into the transcript block embedded in exploration prompts.
//! One line per turn, role-labeled, in the original order; no deduplication
//! and no truncation.

use vstd::prelude::*;
use vstd::string::StringExecFns;

verus! {

/// Who spoke a conversation turn: the pattern voice or the human.
#[derive(Clone, Copy, PartialEq, Eq, Structural, Debug)]
pub enum Role {
    Pattern,
    Human,
}

/// One prior conversation turn. The caller resends the full history each
/// request; insertion order is chronological order.
pub struct Turn {
    pub role: Role,
    pub content: String,
}

/// The transcript line contributed by one turn: a newline, then the
/// coordinate or `Human` as the speaker label, a colon, and the content.
pub open spec fn turn_line(coordinate: Seq<char>, t: Turn) -> Seq<char> {
    match t.role {
        Role::Pattern => "\n"@ + coordinate + ": "@ + t.content@,
        Role::Human => "\nHuman: "@ + t.content@,
    }
}

/// The transcript of a whole conversation: the lines of its turns, in order.
pub open spec fn transcript_of(coordinate: Seq<char>, turns: Seq<Turn>) -> Seq<char>
    decreases turns.len(),
{
    if turns.len() == 0 {
        Seq::<char>::empty()
    } else {
        turn_line(coordinate, turns[0]) + transcript_of(coordinate, turns.drop_first())
    }
}

/// Appending a turn to a conversation appends exactly that turn's line to
/// the transcript: rendering preserves turn order.
pub proof fn lemma_transcript_snoc(coordinate: Seq<char>, turns: Seq<Turn>, t: Turn)
    ensures
        transcript_of(coordinate, turns.push(t)) == transcript_of(coordinate, turns) + turn_line(
            coordinate,
            t,
        ),
    decreases turns.len(),
{
    if turns.len() == 0 {
        assert(turns.push(t)[0] == t);
        assert(turns.push(t).drop_first() =~= Seq::<Turn>::empty());
        assert(transcript_of(coordinate, Seq::<Turn>::empty()) == Seq::<char>::empty());
        assert(transcript_of(coordinate, turns.push(t)) =~= transcript_of(coordinate, turns)
            + turn_line(coordinate, t));
    } else {
        assert(turns.push(t).drop_first() =~= turns.drop_first().push(t));
        lemma_transcript_snoc(coordinate, turns.drop_first(), t);
        assert(transcript_of(coordinate, turns.push(t)) =~= transcript_of(coordinate, turns)
            + turn_line(coordinate, t));
    }
}

/// Renders the conversation transcript, one role-labeled line per turn, in
/// the given order.
pub fn render_transcript(coordinate: &str, turns: &Vec<Turn>) -> (r: String)
    ensures
        r@ == transcript_of(coordinate@, turns@),
{
    let mut r = String::new();
    let mut i: usize = 0;
    proof {
        assert(turns@.subrange(0, 0) =~= Seq::<Turn>::empty());
    }
    while i < turns.len()
        invariant
            i <= turns.len(),
            r@ == transcript_of(coordinate@, turns@.subrange(0, i as int)),
        decreases turns.len() - i,
    {
        match turns[i].role {
            Role::Pattern => {
                r.append("\n");
                r.append(coordinate);
                r.append(": ");
            },
            Role::Human => {
                r.append("\nHuman: ");
            },
        }
        r.append(turns[i].content.as_str());
        proof {
            assert(turns@.subrange(0, i + 1) =~= turns@.subrange(0, i as int).push(
                turns@[i as int],
            ));
            lemma_transcript_snoc(coordinate@, turns@.subrange(0, i as int), turns@[i as int]);
            assert(r@ =~= transcript_of(coordinate@, turns@.subrange(0, i + 1)));
        }
        i += 1;
    }
    proof {
        assert(turns@.subrange(0, turns@.len() as int) =~= turns@);
    }
    r
}

} // verus!
