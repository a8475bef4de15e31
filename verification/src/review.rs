//! The review session: the cards of a deck are asked one after another until each
//! has been answered correctly once.
//!
//! The session holds the cards still to be asked as a queue. The card at the tail is
//! asked next. A correct answer removes it; a wrong answer moves it to the head, so
//! that it comes up again after the others. Every answer, right or wrong, gives one
//! record for the caller to store.

use crate::models::{Card, CardView};
use crate::text::{decimal_string, trim, trimmed, u64_to_string};
use vstd::prelude::*;

verus! {

/// One answer as the store keeps it.
#[derive(Debug, PartialEq, Eq)]
pub struct AnswerRecord {
    pub session_id: i64,
    pub card_id: Option<i64>,
    pub deck_id: i64,
    /// What the user typed, without the whitespace around it.
    pub answer: String,
    /// The back of the card.
    pub correct_answer: String,
}

/// What an `AnswerRecord` is, in plain values.
pub struct AnswerRecordView {
    pub session_id: i64,
    pub card_id: Option<i64>,
    pub deck_id: i64,
    pub answer: Seq<char>,
    pub correct_answer: Seq<char>,
}

impl View for AnswerRecord {
    type V = AnswerRecordView;

    open spec fn view(&self) -> AnswerRecordView {
        AnswerRecordView {
            session_id: self.session_id,
            card_id: self.card_id,
            deck_id: self.deck_id,
            answer: self.answer@,
            correct_answer: self.correct_answer@,
        }
    }
}

/// An answer with its verdict.
#[derive(Debug, PartialEq, Eq)]
pub struct Graded {
    /// The record to store, whatever the verdict.
    pub record: AnswerRecord,
    /// Whether the answer was the back of the card.
    pub is_correct: bool,
}

impl Graded {
    /// The lines shown after an answer: one line for a correct answer; for a wrong
    /// one a line saying so and a line with the back of the card.
    pub open spec fn spec_feedback(record: AnswerRecordView, is_correct: bool) -> Seq<Seq<char>> {
        if is_correct {
            seq!["Correct!"@]
        } else {
            seq!["Incorrect!"@, "The answer is: "@ + record.correct_answer]
        }
    }

    /// The lines shown after this answer.
    pub fn feedback(&self) -> (r: Vec<String>)
        ensures
            r@.len() == Self::spec_feedback(self.record@, self.is_correct).len(),
            forall|i: int|
                0 <= i < r@.len() ==> (#[trigger] r@[i])@ == Self::spec_feedback(
                    self.record@,
                    self.is_correct,
                )[i],
    {
        let mut lines: Vec<String> = Vec::new();
        if self.is_correct {
            lines.push(String::from_str("Correct!"));
        } else {
            lines.push(String::from_str("Incorrect!"));
            let mut line: String = String::from_str("The answer is: ");
            line.append(self.record.correct_answer.as_str());
            lines.push(line);
        }
        lines
    }
}

/// A review of one deck in progress.
#[derive(Debug, PartialEq)]
pub struct ReviewSession {
    session_id: i64,
    deck_id: i64,
    queue: Vec<Card>,
    total: usize,
    correct: u64,
    incorrect: u64,
}

/// What a `ReviewSession` is, in plain values. The last card of `queue` is the one
/// asked next; `total` is the number of cards the session started with.
pub struct ReviewView {
    pub session_id: i64,
    pub deck_id: i64,
    pub queue: Seq<CardView>,
    pub total: nat,
    pub correct: nat,
    pub incorrect: nat,
}

/// The cards of a queue, in plain values.
pub open spec fn card_views(cards: Seq<Card>) -> Seq<CardView> {
    cards.map_values(|c: Card| c@)
}

impl ReviewView {
    /// The session as it starts: every card still to be asked, nothing counted.
    pub open spec fn start(session_id: i64, deck_id: i64, cards: Seq<CardView>) -> ReviewView {
        ReviewView { session_id, deck_id, queue: cards, total: cards.len(), correct: 0, incorrect: 0 }
    }

    /// Each card of the deck is either still in the queue or was answered correctly.
    pub open spec fn wf(self) -> bool {
        self.correct + self.queue.len() == self.total
    }

    /// Whether no card is left to ask.
    pub open spec fn finished(self) -> bool {
        self.queue.len() == 0
    }

    /// Whether the typed line `input` answers the card asked next: without the
    /// whitespace around it, it must be the back of the card, character for
    /// character.
    pub open spec fn is_match(self, input: Seq<char>) -> bool {
        trimmed(input) == self.queue.last().back
    }

    /// The record of the typed line `input` as an answer to the card asked next.
    pub open spec fn record(self, input: Seq<char>) -> AnswerRecordView {
        AnswerRecordView {
            session_id: self.session_id,
            card_id: self.queue.last().id,
            deck_id: self.deck_id,
            answer: trimmed(input),
            correct_answer: self.queue.last().back,
        }
    }

    /// The session after the typed line `input`: a finished session stays as it is;
    /// a correct answer takes the card off the queue and counts as correct; a wrong
    /// one moves the card from the tail of the queue to its head and counts as
    /// incorrect.
    pub open spec fn after_answer(self, input: Seq<char>) -> ReviewView {
        if self.finished() {
            self
        } else if self.is_match(input) {
            ReviewView { queue: self.queue.drop_last(), correct: self.correct + 1, ..self }
        } else {
            ReviewView {
                queue: seq![self.queue.last()] + self.queue.drop_last(),
                incorrect: self.incorrect + 1,
                ..self
            }
        }
    }

    /// The session after the typed lines `inputs`, one after another.
    pub open spec fn after_answers(self, inputs: Seq<Seq<char>>) -> ReviewView
        decreases inputs.len(),
    {
        if inputs.len() == 0 {
            self
        } else {
            self.after_answers(inputs.drop_last()).after_answer(inputs.last())
        }
    }

    /// The line that sums the session up.
    pub open spec fn summary(self) -> Seq<char> {
        "You got "@ + decimal_string(self.correct) + " correct and "@ + decimal_string(
            self.incorrect,
        ) + " incorrect"@
    }
}

impl ReviewSession {
    /// What this session is, in plain values.
    pub closed spec fn spec_view(&self) -> ReviewView {
        ReviewView {
            session_id: self.session_id,
            deck_id: self.deck_id,
            queue: card_views(self.queue@),
            total: self.total as nat,
            correct: self.correct as nat,
            incorrect: self.incorrect as nat,
        }
    }

    /// A session over `cards` for the deck `deck_id`, recorded under `session_id`.
    /// The last card is asked first.
    pub fn new(session_id: i64, deck_id: i64, cards: Vec<Card>) -> (r: Self)
        ensures
            r.spec_view() == ReviewView::start(session_id, deck_id, card_views(cards@)),
            r.spec_view().wf(),
    {
        let total: usize = cards.len();
        ReviewSession { session_id, deck_id, queue: cards, total, correct: 0, incorrect: 0 }
    }

    /// Whether every card has been answered correctly.
    pub fn is_finished(&self) -> (r: bool)
        ensures
            r == self.spec_view().finished(),
    {
        self.queue.len() == 0
    }

    /// The card to ask next, if any is left.
    pub fn next_card(&self) -> (r: Option<&Card>)
        ensures
            match r {
                Some(card) => !self.spec_view().finished() && card@
                    == self.spec_view().queue.last(),
                None => self.spec_view().finished(),
            },
    {
        let n: usize = self.queue.len();
        if n == 0 {
            None
        } else {
            Some(&self.queue[n - 1])
        }
    }

    /// The lines that ask the next card, if any is left: its front, then the
    /// question.
    pub fn question(&self) -> (r: Option<Vec<String>>)
        ensures
            match r {
                Some(lines) => {
                    &&& !self.spec_view().finished()
                    &&& lines@.len() == 2
                    &&& lines@[0]@ == "Front: "@ + self.spec_view().queue.last().front
                    &&& lines@[1]@ == "What is the back?"@
                },
                None => self.spec_view().finished(),
            },
    {
        match self.next_card() {
            Some(card) => {
                let mut lines: Vec<String> = Vec::new();
                let mut line: String = String::from_str("Front: ");
                line.append(card.front.as_str());
                lines.push(line);
                lines.push(String::from_str("What is the back?"));
                Some(lines)
            },
            None => None,
        }
    }

    /// How many cards are left to ask.
    pub fn remaining(&self) -> (r: usize)
        ensures
            r == self.spec_view().queue.len(),
    {
        self.queue.len()
    }

    /// The answers counted so far: the correct ones, then the incorrect ones. An
    /// incorrect answer counts each time it is given, so the second number can
    /// exceed the number of cards.
    pub fn tally(&self) -> (r: (u64, u64))
        ensures
            r.0 == self.spec_view().correct,
            r.1 == self.spec_view().incorrect,
    {
        (self.correct, self.incorrect)
    }

    /// The id under which the answers of this session are recorded.
    pub fn session_id(&self) -> (r: i64)
        ensures
            r == self.spec_view().session_id,
    {
        self.session_id
    }

    /// The deck under review.
    pub fn deck_id(&self) -> (r: i64)
        ensures
            r == self.spec_view().deck_id,
    {
        self.deck_id
    }

    /// Takes the typed line `input` as the answer to the card asked next. Returns the
    /// record to store and the verdict; `None`, with nothing changed, where no card
    /// was left to ask.
    pub fn answer(&mut self, input: &str) -> (r: Option<Graded>)
        requires
            old(self).spec_view().wf(),
            old(self).spec_view().incorrect < u64::MAX,
        ensures
            final(self).spec_view() == old(self).spec_view().after_answer(input@),
            final(self).spec_view().wf(),
            match r {
                Some(graded) => {
                    &&& !old(self).spec_view().finished()
                    &&& graded.record@ == old(self).spec_view().record(input@)
                    &&& graded.is_correct == old(self).spec_view().is_match(input@)
                },
                None => old(self).spec_view().finished(),
            },
    {
        let ghost before = self.queue@;
        let card: Card = match self.queue.pop() {
            Some(card) => card,
            None => { return None; },
        };
        assert(card_views(before).last() == card@);
        assert(card_views(self.queue@) =~= card_views(before).drop_last());
        let answer: String = String::from_str(trim(input));
        let record: AnswerRecord = AnswerRecord {
            session_id: self.session_id,
            card_id: card.id,
            deck_id: self.deck_id,
            answer: answer.clone(),
            correct_answer: card.back.clone(),
        };
        let is_correct: bool = answer == card.back;
        if is_correct {
            self.correct = self.correct + 1;
        } else {
            self.incorrect = self.incorrect + 1;
            let ghost rest = self.queue@;
            self.queue.insert(0, card);
            assert(card_views(self.queue@) =~= seq![card@] + card_views(rest));
        }
        Some(Graded { record, is_correct })
    }

    /// The line that sums the session up.
    pub fn summary(&self) -> (r: String)
        ensures
            r@ == self.spec_view().summary(),
    {
        let mut line: String = String::from_str("You got ");
        let correct: String = u64_to_string(self.correct);
        line.append(correct.as_str());
        line.append(" correct and ");
        let incorrect: String = u64_to_string(self.incorrect);
        line.append(incorrect.as_str());
        line.append(" incorrect");
        line
    }
}

/// Every answer to an unfinished session is counted exactly once, as correct or as
/// incorrect, and gives one record; a correct answer shortens the queue by the card
/// asked, a wrong one keeps all cards and moves the card asked to the head.
pub proof fn law_answer_counts_once(s: ReviewView, input: Seq<char>)
    requires
        !s.finished(),
    ensures
        s.after_answer(input).correct + s.after_answer(input).incorrect == s.correct
            + s.incorrect + 1,
        s.is_match(input) ==> s.after_answer(input).queue == s.queue.drop_last(),
        !s.is_match(input) ==> s.after_answer(input).queue.len() == s.queue.len()
            && s.after_answer(input).queue[0] == s.queue.last(),
        s.wf() ==> s.after_answer(input).wf(),
{
}

/// A finished session has counted every card of the deck as correct, and a session
/// that has done so is finished.
pub proof fn law_finished_iff_all_correct(s: ReviewView)
    requires
        s.wf(),
    ensures
        s.finished() <==> s.correct == s.total,
{
}

/// A session over no cards is finished from the start, with nothing counted, and
/// stays so whatever is typed.
pub proof fn law_empty_deck(session_id: i64, deck_id: i64, input: Seq<char>)
    ensures
        ReviewView::start(session_id, deck_id, Seq::empty()).finished(),
        ReviewView::start(session_id, deck_id, Seq::empty()).correct == 0,
        ReviewView::start(session_id, deck_id, Seq::empty()).incorrect == 0,
        ReviewView::start(session_id, deck_id, Seq::empty()).after_answer(input)
            == ReviewView::start(session_id, deck_id, Seq::empty()),
{
}

/// Over any run of answers a valid session stays valid, the correct count never
/// exceeds the number of cards, and no more answers are counted than were given.
pub proof fn law_answers_keep_session_valid(s: ReviewView, inputs: Seq<Seq<char>>)
    requires
        s.wf(),
    ensures
        s.after_answers(inputs).wf(),
        s.after_answers(inputs).total == s.total,
        s.after_answers(inputs).correct <= s.total,
        s.after_answers(inputs).correct + s.after_answers(inputs).incorrect <= s.correct
            + s.incorrect + inputs.len(),
        s.after_answers(inputs).correct >= s.correct,
        s.after_answers(inputs).incorrect >= s.incorrect,
    decreases inputs.len(),
{
    if inputs.len() > 0 {
        law_answers_keep_session_valid(s, inputs.drop_last());
    }
}

} // verus!
