//! Core logic of a recipe chat bot: it classifies a free-text message as a
//! random-recipe request, an ingredient-inventory statement, or unrecognized;
//! extracts diet/cuisine tags and ingredient lists from the text; drives the
//! two-step recipe-provider protocol; normalizes raw provider records; and
//! renders the final reply text.

pub mod intent;
pub mod inventory;
pub mod pipeline;
pub mod provider;
pub mod reply;
pub mod tags;
pub mod text;
