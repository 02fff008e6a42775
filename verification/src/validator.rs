//! Generation validator: the double lock around the external text
//! generator.
//!
//! The pre-check bounds the universe the generator may talk about; the
//! post-check refuses text that is too long or contains a forbidden term.
//! A caller must substitute the fixed fallback message for any rejected
//! text, so nothing unvetted ever reaches the outbound channel.

use vstd::prelude::*;
use vstd::string::StringExecFns;

use crate::knowledge::{spec_has_product, KnowledgeBaseEngine};
use crate::text::{contains_word, has_word, lower_of, lowercase, str_eq};

verus! {

/// Why a candidate text or generation request was refused.
#[derive(Debug, Clone, PartialEq)]
pub enum ValidationError {
    /// The candidate text exceeds the maximum length.
    TooLong,
    /// The candidate text contains this forbidden term.
    ForbiddenWord { word: String },
    /// The referenced product is not in the authorized knowledge set.
    UnknownProduct,
    /// The requested action is not in the allowed action vocabulary.
    UnknownAction,
}

/// The terms whose presence disqualifies generated text, as configured at
/// construction.
pub open spec fn default_forbidden_terms() -> Seq<Seq<char>> {
    seq![
        "AI"@,
        "intelligence artificielle"@,
        "robot"@,
        "humain"@,
        "transférer"@,
        "escalade"@,
    ]
}

/// The closed action vocabulary a generation request may name.
pub open spec fn default_allowed_actions() -> Seq<Seq<char>> {
    seq![
        "RespondText"@,
        "RespondWithMedia"@,
        "Ignore"@,
        "Delay"@,
        "AlertHuman"@,
        "StopAutomation"@,
    ]
}

/// The character sequences of a list of words.
pub open spec fn views_of(words: Seq<String>) -> Seq<Seq<char>> {
    words.map_values(|w: String| w@)
}

/// The case-folded text contains the case-folded term as a whole word:
/// "AI" is caught in "je suis une ai", not inside "aider".
pub open spec fn spec_word_hit(text: Seq<char>, word: Seq<char>) -> bool {
    has_word(lower_of(text), lower_of(word))
}

/// No word of the list occurs in the text, case-insensitively.
pub open spec fn spec_clean(words: Seq<String>, text: Seq<char>) -> bool {
    forall|i: int| 0 <= i < words.len() ==> !spec_word_hit(text, words[i]@)
}

/// The action name is one of the allowed vocabulary.
pub open spec fn spec_allowed_action(actions: Seq<String>, action: Seq<char>) -> bool {
    exists|i: int| 0 <= i < actions.len() && actions[i]@ == action
}

/// Double lock around the external generator: a pre-check before any text
/// is produced, a post-check on every candidate text.
pub struct AntiHallucinationEngine {
    pub forbidden_words: Vec<String>,
    pub max_length: usize,
    pub allowed_actions: Vec<String>,
}

impl AntiHallucinationEngine {
    pub fn new() -> (engine: Self)
        ensures
            views_of(engine.forbidden_words@) == default_forbidden_terms(),
            engine.max_length == 500,
            views_of(engine.allowed_actions@) == default_allowed_actions(),
    {
        let mut forbidden_words: Vec<String> = Vec::new();
        forbidden_words.push(String::from_str("AI"));
        forbidden_words.push(String::from_str("intelligence artificielle"));
        forbidden_words.push(String::from_str("robot"));
        forbidden_words.push(String::from_str("humain"));
        forbidden_words.push(String::from_str("transférer"));
        forbidden_words.push(String::from_str("escalade"));
        let mut allowed_actions: Vec<String> = Vec::new();
        allowed_actions.push(String::from_str("RespondText"));
        allowed_actions.push(String::from_str("RespondWithMedia"));
        allowed_actions.push(String::from_str("Ignore"));
        allowed_actions.push(String::from_str("Delay"));
        allowed_actions.push(String::from_str("AlertHuman"));
        allowed_actions.push(String::from_str("StopAutomation"));
        proof {
            assert(views_of(forbidden_words@) =~= default_forbidden_terms());
            assert(views_of(allowed_actions@) =~= default_allowed_actions());
        }
        Self { forbidden_words, max_length: 500, allowed_actions }
    }

    /// Pre-generation lock: the referenced product must exist in the
    /// authorized knowledge set, and the requested action must belong to
    /// the allowed vocabulary. A failure here short-circuits before the
    /// generator is called.
    #[verifier::loop_isolation(false)]
    pub fn validate_before_ai(
        &self,
        kb: &KnowledgeBaseEngine,
        product_id: &str,
        action: &str,
    ) -> (outcome: Result<(), ValidationError>)
        ensures
            outcome is Ok <==> spec_has_product(kb.products@, product_id@)
                && spec_allowed_action(self.allowed_actions@, action@),
            !spec_has_product(kb.products@, product_id@)
                ==> outcome == Err::<(), ValidationError>(ValidationError::UnknownProduct),
            spec_has_product(kb.products@, product_id@)
                && !spec_allowed_action(self.allowed_actions@, action@)
                ==> outcome == Err::<(), ValidationError>(ValidationError::UnknownAction),
    {
        if !kb.is_valid_product(product_id) {
            return Err(ValidationError::UnknownProduct);
        }
        let n = self.allowed_actions.len();
        let mut i: usize = 0;
        while i < n
            invariant
                n == self.allowed_actions@.len(),
                i <= n,
                forall|j: int| 0 <= j < i ==> self.allowed_actions@[j]@ != action@,
            decreases n - i,
        {
            if str_eq(self.allowed_actions[i].as_str(), action) {
                return Ok(());
            }
            i += 1;
        }
        Err(ValidationError::UnknownAction)
    }

    /// Post-generation lock: refuses text longer than the maximum or
    /// containing any forbidden term as a whole word (matched
    /// case-insensitively); accepted text is
    /// returned unchanged. The length check wins over the term check, and
    /// the reported term is the first forbidden word that occurs.
    #[verifier::loop_isolation(false)]
    pub fn validate_after_ai(&self, generated_text: &str) -> (outcome: Result<
        String,
        ValidationError,
    >)
        ensures
            outcome is Ok <==> generated_text@.len() <= self.max_length
                && spec_clean(self.forbidden_words@, generated_text@),
            outcome matches Ok(accepted) ==> accepted@ == generated_text@,
            generated_text@.len() > self.max_length ==> outcome == Err::<
                String,
                ValidationError,
            >(ValidationError::TooLong),
            outcome is Err && generated_text@.len() <= self.max_length
                ==> (outcome->Err_0 matches ValidationError::ForbiddenWord { word }
                && exists|i: int|
                    {
                        &&& 0 <= i < self.forbidden_words@.len()
                        &&& word == self.forbidden_words@[i]
                        &&& spec_word_hit(generated_text@, self.forbidden_words@[i]@)
                        &&& forall|j: int| 0 <= j < i
                            ==> !spec_word_hit(generated_text@, self.forbidden_words@[j]@)
                    }),
    {
        if generated_text.unicode_len() > self.max_length {
            return Err(ValidationError::TooLong);
        }
        let lowered_text = lowercase(generated_text);
        let n = self.forbidden_words.len();
        let mut i: usize = 0;
        while i < n
            invariant
                n == self.forbidden_words@.len(),
                i <= n,
                lowered_text@ == lower_of(generated_text@),
                forall|j: int| 0 <= j < i
                    ==> !spec_word_hit(generated_text@, self.forbidden_words@[j]@),
            decreases n - i,
        {
            let lowered_word = lowercase(self.forbidden_words[i].as_str());
            if contains_word(lowered_text.as_str(), lowered_word.as_str()) {
                return Err(ValidationError::ForbiddenWord {
                    word: self.forbidden_words[i].clone(),
                });
            }
            i += 1;
        }
        Ok(String::from_str(generated_text))
    }

    /// The fixed neutral reply a caller must substitute when validation
    /// rejects a candidate text.
    pub fn get_fallback_message(&self) -> (message: String)
        ensures
            message@ == "Désolé, je n'ai pas bien compris votre demande. Pouvez-vous préciser ?"@,
    {
        String::from_str("Désolé, je n'ai pas bien compris votre demande. Pouvez-vous préciser ?")
    }
}

impl Default for AntiHallucinationEngine {
    fn default() -> (engine: Self)
        ensures
            views_of(engine.forbidden_words@) == default_forbidden_terms(),
            engine.max_length == 500,
            views_of(engine.allowed_actions@) == default_allowed_actions(),
    {
        Self::new()
    }
}

} // verus!
