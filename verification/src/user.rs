use vstd::prelude::*;

verus! {

/// The singleton secret row: an id and the encrypted sentinel text whose
/// successful decryption proves that a candidate master key is right.
#[derive(Debug, Clone, PartialEq)]
pub struct User {
    pub id: i32,
    pub secret: String,
}

/// Mathematical image of a `User`.
#[verifier::ext_equal]
pub struct UserV {
    pub id: int,
    pub secret: Seq<char>,
}

impl View for User {
    type V = UserV;

    open spec fn view(&self) -> UserV {
        UserV { id: self.id as int, secret: self.secret@ }
    }
}

} // verus!
