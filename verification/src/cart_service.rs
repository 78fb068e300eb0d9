//! The cart: one document per user, one line per product.
//!
//! Adding a product that the cart already holds raises the quantity of its line; adding
//! another one appends a line.

use crate::models::{lines, Cart, CartItem, CartItemView, CartView, User};
use crate::object_id::{
    fresh_object_id, is_object_id_text, parse_failure_text, parse_hex, ObjectId,
};
use crate::status::{text, Reply, ReplyView, Status};
use vstd::prelude::*;

verus! {

/// Whether some line of the cart is for the product.
pub open spec fn has_line(items: Seq<CartItemView>, product_id: Seq<char>) -> bool {
    exists|i: int| 0 <= i < items.len() && (#[trigger] items[i]).product_id == product_id
}

/// Whether line `i` is the first line for the product.
pub open spec fn is_first_line(items: Seq<CartItemView>, product_id: Seq<char>, i: int) -> bool {
    &&& 0 <= i < items.len()
    &&& items[i].product_id == product_id
    &&& forall|j: int| 0 <= j < i ==> (#[trigger] items[j]).product_id != product_id
}

/// The first line for the product, where the cart has one.
pub open spec fn first_line(items: Seq<CartItemView>, product_id: Seq<char>) -> int {
    choose|i: int| is_first_line(items, product_id, i)
}

/// The cart after an item was added: the first line for the product has its quantity
/// raised by the item's; a cart without such a line gets the item as its last line.
pub open spec fn merged(items: Seq<CartItemView>, item: CartItemView) -> Seq<CartItemView> {
    if has_line(items, item.product_id) {
        let i = first_line(items, item.product_id);
        items.update(
            i,
            CartItemView {
                product_id: item.product_id,
                quantity: (items[i].quantity + item.quantity) as u32,
            },
        )
    } else {
        items.push(item)
    }
}

/// Whether the item can be added without its line's quantity leaving the range of `u32`.
pub open spec fn fits(items: Seq<CartItemView>, item: CartItemView) -> bool {
    has_line(items, item.product_id) ==> items[first_line(items, item.product_id)].quantity
        + item.quantity <= u32::MAX
}

/// Whether no two lines are for the same product.
pub open spec fn one_line_per_product(items: Seq<CartItemView>) -> bool {
    forall|i: int, j: int|
        0 <= i < j < items.len() ==> (#[trigger] items[i]).product_id != (
        #[trigger] items[j]).product_id
}

/// The first line for a product is the only line that `is_first_line` accepts.
pub proof fn lemma_first_line_is_unique(items: Seq<CartItemView>, product_id: Seq<char>, i: int)
    requires
        is_first_line(items, product_id, i),
    ensures
        has_line(items, product_id),
        first_line(items, product_id) == i,
{
    let k = first_line(items, product_id);
    assert(is_first_line(items, product_id, k));
    if k < i {
        assert(items[k].product_id != product_id);
    }
    if i < k {
        assert(items[i].product_id != product_id);
    }
}

/// A cart that has a line for a product has a first one.
pub proof fn lemma_first_line_exists(items: Seq<CartItemView>, product_id: Seq<char>)
    requires
        has_line(items, product_id),
    ensures
        is_first_line(items, product_id, first_line(items, product_id)),
{
    let w = choose|i: int| 0 <= i < items.len() && (#[trigger] items[i]).product_id == product_id;
    lemma_first_line_below(items, product_id, w);
}

/// Below any line for a product lies the first one.
proof fn lemma_first_line_below(items: Seq<CartItemView>, product_id: Seq<char>, w: int)
    requires
        0 <= w < items.len(),
        items[w].product_id == product_id,
    ensures
        exists|i: int| is_first_line(items, product_id, i),
    decreases w,
{
    if forall|j: int| 0 <= j < w ==> (#[trigger] items[j]).product_id != product_id {
        assert(is_first_line(items, product_id, w));
    } else {
        let j = choose|j: int| 0 <= j < w && (#[trigger] items[j]).product_id == product_id;
        lemma_first_line_below(items, product_id, j);
    }
}

/// Adding an item leaves the cart with one line per product, if it had that before.
pub proof fn lemma_merge_keeps_one_line_per_product(items: Seq<CartItemView>, item: CartItemView)
    requires
        one_line_per_product(items),
    ensures
        one_line_per_product(merged(items, item)),
        has_line(merged(items, item), item.product_id),
        merged(items, item).len() == if has_line(items, item.product_id) {
            items.len()
        } else {
            items.len() + 1
        },
{
    let after = merged(items, item);
    if has_line(items, item.product_id) {
        lemma_first_line_exists(items, item.product_id);
        let i = first_line(items, item.product_id);
        assert(after[i].product_id == item.product_id);
        assert forall|a: int, b: int| 0 <= a < b < after.len() implies (
        #[trigger] after[a]).product_id != (#[trigger] after[b]).product_id by {
            assert(after[a].product_id == items[a].product_id);
            assert(after[b].product_id == items[b].product_id);
        }
    } else {
        assert(after[items.len() as int].product_id == item.product_id);
        assert forall|a: int, b: int| 0 <= a < b < after.len() implies (
        #[trigger] after[a]).product_id != (#[trigger] after[b]).product_id by {
            if b < items.len() {
                assert(after[a] == items[a]);
                assert(after[b] == items[b]);
            } else {
                assert(after[a] == items[a]);
            }
        }
    }
}

/// Adding a product twice to a cart that did not hold it gives one line for it, with the
/// two quantities added up; the lines that were there stay as they were.
pub proof fn lemma_adding_twice_adds_quantities(
    items: Seq<CartItemView>,
    product_id: Seq<char>,
    first: u32,
    second: u32,
)
    requires
        !has_line(items, product_id),
        first + second <= u32::MAX,
    ensures
        merged(
            merged(items, CartItemView { product_id, quantity: first }),
            CartItemView { product_id, quantity: second },
        ) == items.push(CartItemView { product_id, quantity: (first + second) as u32 }),
        fits(
            merged(items, CartItemView { product_id, quantity: first }),
            CartItemView { product_id, quantity: second },
        ),
{
    let once = merged(items, CartItemView { product_id, quantity: first });
    assert(once == items.push(CartItemView { product_id, quantity: first }));
    let at = items.len() as int;
    assert(once[at].product_id == product_id);
    assert forall|j: int| 0 <= j < at implies (#[trigger] once[j]).product_id != product_id by {
        assert(once[j] == items[j]);
    }
    assert(is_first_line(once, product_id, at));
    lemma_first_line_is_unique(once, product_id, at);
    let twice = merged(once, CartItemView { product_id, quantity: second });
    assert(twice =~= items.push(
        CartItemView { product_id, quantity: (first + second) as u32 },
    ));
}

/// Finds the first line for a product.
pub fn find_line(products: &Vec<CartItem>, product_id: &String) -> (found: Option<usize>)
    ensures
        match found {
            Some(i) => is_first_line(lines(products@), product_id@, i as int),
            None => !has_line(lines(products@), product_id@),
        },
{
    let mut i: usize = 0;
    while i < products.len()
        invariant
            i <= products.len(),
            forall|j: int|
                0 <= j < i ==> (#[trigger] lines(products@)[j]).product_id != product_id@,
        decreases products.len() - i,
    {
        if products[i].product_id == *product_id {
            assert(lines(products@)[i as int].product_id == product_id@);
            return Some(i);
        }
        i += 1;
    }
    None
}

/// Whether the item can be added: the quantity of its line, if the cart has one, stays
/// within `u32`.
pub fn can_add(products: &Vec<CartItem>, input: &CartItem) -> (ok: bool)
    ensures
        ok == fits(lines(products@), input@),
{
    match find_line(products, &input.product_id) {
        Some(i) => {
            proof {
                lemma_first_line_is_unique(lines(products@), input.product_id@, i as int);
            }
            products[i].quantity <= u32::MAX - input.quantity
        },
        None => true,
    }
}

/// Adds an item to the lines of a cart.
pub fn merge_item(products: &mut Vec<CartItem>, input: CartItem)
    requires
        fits(lines(old(products)@), input@),
    ensures
        lines(final(products)@) == merged(lines(old(products)@), input@),
{
    let ghost before = lines(products@);
    match find_line(products, &input.product_id) {
        Some(i) => {
            proof {
                lemma_first_line_is_unique(before, input.product_id@, i as int);
            }
            let raised = CartItem {
                product_id: input.product_id,
                quantity: products[i].quantity + input.quantity,
            };
            products[i] = raised;
            assert(lines(products@) =~= merged(before, input@));
        },
        None => {
            products.push(input);
            assert(lines(products@) =~= merged(before, input@));
        },
    }
}

/// Why adding to the cart stops before the store is asked, if it does: the user has no
/// identifier, or the product's is not well-formed.
pub open spec fn cart_refusal(user: User, input: CartItem) -> Option<ReplyView> {
    if user.id is None {
        Some(text(Status::Unauthorized, "UNAUTHORIZED"@))
    } else if !is_object_id_text(input.product_id@) {
        Some(text(Status::BadRequest, parse_failure_text(input.product_id@)))
    } else {
        None
    }
}

/// Adding to the cart, first step: whose cart to look for.
pub fn add_to_cart_start(user: &User, input: &CartItem) -> (r: Result<ObjectId, Reply>)
    ensures
        match r {
            Ok(user_id) => cart_refusal(*user, *input) is None && user.id == Some(user_id),
            Err(reply) => cart_refusal(*user, *input) == Some(reply@),
        },
{
    let user_id = match user.id {
        Some(id) => id,
        None => {
            return Err(Reply::text(Status::Unauthorized, "UNAUTHORIZED"));
        },
    };
    match parse_hex(input.product_id.as_str()) {
        Ok(_) => Ok(user_id),
        Err(message) => Err(Reply::owned_text(Status::BadRequest, message)),
    }
}

/// What adding to the cart writes to the store.
#[derive(Clone, Debug, PartialEq, Eq)]
pub enum CartWrite {
    /// Replace the lines of the user's cart by these.
    Update { products: Vec<CartItem> },
    /// Store this new cart.
    Insert(Cart),
}

/// The new cart of a user: one line, the item.
pub open spec fn first_cart(user_id: Seq<u8>, input: CartItemView, id: Seq<u8>) -> CartView {
    CartView { _id: Some(id), products: seq![input], user_id }
}

/// Adding to the cart, after the look-up of the user's cart: the lines to write back, or
/// the new cart to store.
pub fn add_to_cart_on_lookup(
    user_id: ObjectId,
    input: CartItem,
    lookup: Result<Option<Cart>, String>,
) -> (r: Result<CartWrite, Reply>)
    requires
        lookup matches Ok(Some(cart)) ==> fits(lines(cart.products@), input@),
    ensures
        match lookup {
            Err(_) => r matches Err(reply) && reply@ == text(Status::ServerError, "Failed"@),
            Ok(Some(cart)) => r matches Ok(CartWrite::Update { products }) && lines(products@)
                == merged(lines(cart.products@), input@),
            Ok(None) => r matches Ok(CartWrite::Insert(cart)) && cart._id matches Some(id)
                && cart@ == first_cart(user_id@, input@, id@),
        },
{
    match lookup {
        Err(_) => Err(Reply::text(Status::ServerError, "Failed")),
        Ok(Some(cart)) => {
            let mut products = cart.products;
            merge_item(&mut products, input);
            Ok(CartWrite::Update { products })
        },
        Ok(None) => {
            let ghost item = input@;
            let mut products: Vec<CartItem> = Vec::new();
            products.push(input);
            assert(lines(products@) =~= seq![item]);
            Ok(CartWrite::Insert(Cart { _id: Some(fresh_object_id()), products, user_id }))
        },
    }
}

/// The reply after the write of a cart.
pub open spec fn cart_written(update: bool, written: Result<(), String>) -> ReplyView {
    match written {
        Ok(_) => if update {
            text(Status::Success, "Updated cart"@)
        } else {
            text(Status::Success, "CREATED"@)
        },
        Err(message) => if update {
            text(Status::ServerError, message@)
        } else {
            text(Status::ServerError, "Failed"@)
        },
    }
}

/// Adding to the cart, after the write: `update` tells a write-back of lines from a new
/// cart.
pub fn add_to_cart_on_write(update: bool, written: Result<(), String>) -> (r: Result<Reply, Reply>)
    ensures
        match r {
            Ok(reply) => written is Ok && reply@ == cart_written(update, written),
            Err(reply) => written is Err && reply@ == cart_written(update, written),
        },
{
    match written {
        Ok(_) => if update {
            Ok(Reply::text(Status::Success, "Updated cart"))
        } else {
            Ok(Reply::text(Status::Success, "CREATED"))
        },
        Err(message) => if update {
            Err(Reply::owned_text(Status::ServerError, message))
        } else {
            Err(Reply::text(Status::ServerError, "Failed"))
        },
    }
}

} // verus!
