//! Questions for a terminal: a yes or no, one of a numbered list of
//! choices, or a word.
//!
//! A question is an [`InteractChoices`]. [`InteractChoices::print`] is the
//! text to show for it, [`InteractChoices::get_result`] the answer that an
//! input gives. An [`Interaction`] is the loop that puts the question until
//! it has a valid answer or gives up: it takes each line that was read and
//! says what to show and whether to read again, and leaves the reading and
//! the showing to its caller. [`interact_ex`] runs that loop on input that
//! is given beforehand.
//!
//! Every function states what it returns over the mathematical values of
//! its arguments, and the module `laws` holds what follows for all
//! questions and inputs.
pub mod choices;
pub mod laws;
pub mod numeral;
pub mod record;
pub mod session;
pub mod text;
pub mod typed;

pub use choices::{InteractChoices, InteractConfirm, InteractResult};
pub use record::{interact_ex, interact_recorded, Transcript};
pub use session::{InteractError, Interaction, ReadEvent, Step};
pub use typed::{interact_number_ex, interact_word_ex, interact_yesno_ex};
