//! The documents that the backend stores and the inputs that it reads.

use crate::object_id::ObjectId;
use vstd::prelude::*;

verus! {

/// An optional text as plain values.
pub open spec fn opt_text(value: Option<String>) -> Option<Seq<char>> {
    match value {
        Some(t) => Some(t@),
        None => None,
    }
}

/// An optional identifier as plain values.
pub open spec fn opt_id(value: Option<ObjectId>) -> Option<Seq<u8>> {
    match value {
        Some(id) => Some(id@),
        None => None,
    }
}

/// An account.
#[derive(Clone, Debug, PartialEq, Eq)]
pub struct User {
    pub id: Option<ObjectId>,
    pub name: String,
    pub email: String,
    pub password: String,
    pub role: Option<String>,
}

/// A `User` as plain values.
pub struct UserView {
    pub id: Option<Seq<u8>>,
    pub name: Seq<char>,
    pub email: Seq<char>,
    pub password: Seq<char>,
    pub role: Option<Seq<char>>,
}

impl View for User {
    type V = UserView;

    open spec fn view(&self) -> UserView {
        UserView {
            id: opt_id(self.id),
            name: self.name@,
            email: self.email@,
            password: self.password@,
            role: opt_text(self.role),
        }
    }
}

/// What the role of an account comes to.
#[derive(Clone, Copy, Debug, PartialEq, Eq, Structural)]
pub enum Role {
    /// The account has no role.
    Absent,
    /// The role reads `admin`.
    Admin,
    /// The role reads anything else.
    Other,
}

/// The text of the one role that the backend knows.
pub open spec fn admin_role() -> Seq<char> {
    "admin"@
}

/// The role that a stored text stands for.
pub open spec fn role_kind(role: Option<String>) -> Role {
    match role {
        None => Role::Absent,
        Some(text) => if text@ == admin_role() {
            Role::Admin
        } else {
            Role::Other
        },
    }
}

impl User {
    /// The role of the account.
    pub fn role(&self) -> (kind: Role)
        ensures
            kind == role_kind(self.role),
    {
        match &self.role {
            None => Role::Absent,
            Some(text) => {
                let admin = String::from_str("admin");
                if *text == admin {
                    Role::Admin
                } else {
                    Role::Other
                }
            },
        }
    }
}

/// What an account shows of itself: everything but the password hash.
#[derive(Clone, Debug, PartialEq, Eq)]
pub struct Profile {
    pub id: Option<ObjectId>,
    pub name: String,
    pub email: String,
    pub role: Option<String>,
}

/// A `Profile` as plain values.
pub struct ProfileView {
    pub id: Option<Seq<u8>>,
    pub name: Seq<char>,
    pub email: Seq<char>,
    pub role: Option<Seq<char>>,
}

impl View for Profile {
    type V = ProfileView;

    open spec fn view(&self) -> ProfileView {
        ProfileView {
            id: opt_id(self.id),
            name: self.name@,
            email: self.email@,
            role: opt_text(self.role),
        }
    }
}

/// The fields of an account that its owner may change.
#[derive(Clone, Debug, PartialEq, Eq)]
pub struct UpdateUser {
    pub name: String,
    pub age: u8,
}

/// A registration that waits for its one-time code.
///
/// The same shape carries the request (`name`, `email` and `password` filled in) and the
/// stored record (all fields filled in). `expires_at` counts seconds since the Unix epoch.
#[derive(Clone, Debug, PartialEq, Eq)]
pub struct TempUser {
    pub _id: String,
    pub otp: Option<String>,
    pub email: String,
    pub password: String,
    pub name: String,
    pub expires_at: u64,
}

/// A `TempUser` as plain values.
pub struct TempUserView {
    pub _id: Seq<char>,
    pub otp: Option<Seq<char>>,
    pub email: Seq<char>,
    pub password: Seq<char>,
    pub name: Seq<char>,
    pub expires_at: u64,
}

impl View for TempUser {
    type V = TempUserView;

    open spec fn view(&self) -> TempUserView {
        TempUserView {
            _id: self._id@,
            otp: opt_text(self.otp),
            email: self.email@,
            password: self.password@,
            name: self.name@,
            expires_at: self.expires_at,
        }
    }
}

/// The one-time code that a user sends back.
#[derive(Clone, Debug, PartialEq, Eq)]
pub struct VerifyOtpInput {
    pub otp: String,
}

/// The credentials of a login.
#[derive(Clone, Debug, PartialEq, Eq)]
pub struct Login {
    pub email: String,
    pub password: String,
}

/// One line of a cart.
#[derive(Clone, Debug, PartialEq, Eq)]
pub struct CartItem {
    pub product_id: String,
    pub quantity: u32,
}

/// A `CartItem` as plain values.
pub struct CartItemView {
    pub product_id: Seq<char>,
    pub quantity: u32,
}

impl View for CartItem {
    type V = CartItemView;

    open spec fn view(&self) -> CartItemView {
        CartItemView { product_id: self.product_id@, quantity: self.quantity }
    }
}

/// The lines of a cart as plain values.
pub open spec fn lines(items: Seq<CartItem>) -> Seq<CartItemView> {
    Seq::new(items.len(), |i: int| items[i]@)
}

/// The cart of one user. The cached total price is no part of any decision and is left to
/// the store.
#[derive(Clone, Debug, PartialEq, Eq)]
pub struct Cart {
    pub _id: Option<ObjectId>,
    pub products: Vec<CartItem>,
    pub user_id: ObjectId,
}

/// A `Cart` as plain values.
pub struct CartView {
    pub _id: Option<Seq<u8>>,
    pub products: Seq<CartItemView>,
    pub user_id: Seq<u8>,
}

impl View for Cart {
    type V = CartView;

    open spec fn view(&self) -> CartView {
        CartView { _id: opt_id(self._id), products: lines(self.products@), user_id: self.user_id@ }
    }
}

/// The request that names a product for a new cart.
#[derive(Clone, Debug, PartialEq, Eq)]
pub struct CreateCart {
    pub product_id: String,
}

/// The page of the catalogue that a client asks for.
#[derive(Clone, Copy, Debug, PartialEq, Eq)]
pub struct ProductPaginate {
    pub page: i32,
}

/// The texts that a client searches the catalogue for.
#[derive(Clone, Debug, PartialEq, Eq)]
pub struct ProductFilter {
    pub category: Option<String>,
    pub title: Option<String>,
    pub brand: Option<String>,
}

} // verus!
