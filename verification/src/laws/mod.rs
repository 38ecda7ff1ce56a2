//! What each operation is for, said of the operation itself: whatever it returns, the result stands
//! in the relation to the arguments that is stated here.

pub mod fetching;
pub mod github;
pub mod running;
pub mod sources;
pub mod telling;
pub mod texts;
