use vstd::prelude::*;

verus! {

/// One task as the interface shows it: the storage id, the title (ciphertext
/// at rest, plaintext in memory once decrypted) and the status text, which is
/// either "in-progress" or "completed".
#[derive(Debug, Clone, PartialEq)]
pub struct Task {
    pub id: i32,
    pub title: String,
    pub status: String,
}

/// Mathematical image of a `Task`.
#[verifier::ext_equal]
pub struct TaskV {
    pub id: int,
    pub title: Seq<char>,
    pub status: Seq<char>,
}

impl View for Task {
    type V = TaskV;

    open spec fn view(&self) -> TaskV {
        TaskV { id: self.id as int, title: self.title@, status: self.status@ }
    }
}

} // verus!
