use vstd::prelude::*;

verus! {

/// A persisted user: the identifier is the 128-bit value of a UUID.
#[derive(Debug)]
pub struct User {
    pub id: u128,
    pub name: String,
    pub email: String,
}

/// The mathematical value of a `User`.
pub ghost struct UserView {
    pub id: u128,
    pub name: Seq<char>,
    pub email: Seq<char>,
}

impl View for User {
    type V = UserView;

    open spec fn view(&self) -> UserView {
        UserView { id: self.id, name: self.name@, email: self.email@ }
    }
}

impl Clone for User {
    fn clone(&self) -> (r: Self)
        ensures
            r@ == self@,
    {
        User { id: self.id, name: self.name.clone(), email: self.email.clone() }
    }
}

/// The body of a creation request, as the client sent it.
#[derive(Debug)]
pub struct CreateUserRequest {
    pub name: String,
    pub email: String,
}

/// The values of a sequence of users.
pub open spec fn users_view(users: Seq<User>) -> Seq<UserView> {
    users.map_values(|u: User| u@)
}

} // verus!
