use vstd::prelude::*;

verus! {

/// A user row as the contracts see it.
pub ghost struct UserRecord {
    pub id: Seq<char>,
    pub name: Seq<char>,
    pub mail: Seq<char>,
}

/// A user row: `id` is the key, given by the caller.
#[derive(Debug)]
pub struct UserModel {
    pub id: String,
    pub name: String,
    pub mail: String,
}

impl View for UserModel {
    type V = UserRecord;

    open spec fn view(&self) -> UserRecord {
        UserRecord { id: self.id@, name: self.name@, mail: self.mail@ }
    }
}

impl Clone for UserModel {
    fn clone(&self) -> (r: Self)
        ensures
            r@ == self@,
    {
        UserModel { id: self.id.clone(), name: self.name.clone(), mail: self.mail.clone() }
    }
}

} // verus!
