//! Widget ids and the empty widget.
use vstd::prelude::*;

mod empty;
mod id;

pub use empty::Empty;
pub use id::{draws, lemma_draws_distinct, lemma_fresh_id, next_after as id_next_after, IdCounter, ObjectId, WidgetId};
