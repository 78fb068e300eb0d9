//! The catalogue: new products, their images, pages and searches.

use crate::models::{ProductFilter, ProductPaginate};
use crate::status::{bare, text, Reply, ReplyView, Status};
use crate::unique::{new_document_key, UUID_TEXT_LEN};
use vstd::prelude::*;

verus! {

/// How many products a page holds.
pub const PAGE_SIZE: i64 = 5;

/// How many products a search shows at most.
pub const SEARCH_LIMIT: i64 = 5;

/// Draws the identifier of a new product.
pub fn new_product_id() -> (id: String)
    ensures
        id@.len() == UUID_TEXT_LEN,
{
    new_document_key()
}

/// A new product, after the store took it or did not.
pub fn create_products_on_insert<T>(inserted: Result<T, String>) -> (r: Result<T, Reply>)
    ensures
        match r {
            Ok(stored) => inserted == Ok::<T, String>(stored),
            Err(reply) => inserted is Err && reply@ == text(
                Status::ServerError,
                "failed to create product"@,
            ),
        },
{
    match inserted {
        Ok(stored) => Ok(stored),
        Err(_) => Err(Reply::text(Status::ServerError, "failed to create product")),
    }
}

/// A text of a form field, or what stands for a missing one.
pub fn field_or(value: Option<String>, fallback: &str) -> (t: String)
    ensures
        t@ == match value {
            Some(v) => v@,
            None => fallback@,
        },
{
    match value {
        Some(v) => v,
        None => String::from_str(fallback),
    }
}

/// Whether two texts are the same.
pub fn same_text(a: &str, b: &str) -> (same: bool)
    ensures
        same == (a@ == b@),
{
    let left = String::from_str(a);
    let right = String::from_str(b);
    left == right
}

/// A file that a form field carries.
#[derive(Clone, Debug, PartialEq, Eq)]
pub struct Upload {
    pub file_name: String,
    pub content_type: String,
}

/// The name of a form field, `unknown` where it has none.
pub open spec fn field_name(name: Option<String>) -> Seq<char> {
    match name {
        Some(n) => n@,
        None => "unknown"@,
    }
}

/// Picks the form fields that carry a file for `wanted`: a field of another name is
/// skipped; a missing file name reads `unnamed`, a missing content type `unknown`.
pub fn file_field(
    wanted: &str,
    name: Option<String>,
    file_name: Option<String>,
    content_type: Option<String>,
) -> (r: Option<Upload>)
    ensures
        r is Some <==> field_name(name) == wanted@,
        r matches Some(upload) ==> {
            &&& upload.file_name@ == match file_name {
                Some(f) => f@,
                None => "unnamed"@,
            }
            &&& upload.content_type@ == match content_type {
                Some(c) => c@,
                None => "unknown"@,
            }
        },
{
    let name = field_or(name, "unknown");
    let file_name = field_or(file_name, "unnamed");
    let content_type = field_or(content_type, "unknown");
    if same_text(name.as_str(), wanted) {
        Some(Upload { file_name, content_type })
    } else {
        None
    }
}

/// Picks the form fields that carry an image of a product: those named `images`.
pub fn image_field(
    name: Option<String>,
    file_name: Option<String>,
    content_type: Option<String>,
) -> (r: Option<Upload>)
    ensures
        r is Some <==> field_name(name) == "images"@,
        r matches Some(upload) ==> {
            &&& upload.file_name@ == match file_name {
                Some(f) => f@,
                None => "unnamed"@,
            }
            &&& upload.content_type@ == match content_type {
                Some(c) => c@,
                None => "unknown"@,
            }
        },
{
    file_field("images", name, file_name, content_type)
}

/// The reply to a form that cannot be read.
pub fn unreadable_form() -> (reply: Reply)
    ensures
        reply@ == text(Status::ServerError, "Failed to read multipart fields"@),
{
    Reply::text(Status::ServerError, "Failed to read multipart fields")
}

/// An image, after the storage took it or did not: the address to add to the product.
pub fn upload_product_image_on_stored(stored: Result<String, String>) -> (r: Result<String, Reply>)
    ensures
        match r {
            Ok(url) => stored == Ok::<String, String>(url),
            Err(reply) => stored is Err && reply@ == text(
                Status::ServerError,
                "Failed to upload image"@,
            ),
        },
{
    match stored {
        Ok(url) => Ok(url),
        Err(_) => Err(Reply::text(Status::ServerError, "Failed to upload image")),
    }
}

/// Why the handler stops after the product was updated, if it does: the store failed, or
/// it holds no such product.
pub open spec fn update_refusal(updated: Result<bool, String>) -> Option<ReplyView> {
    match updated {
        Err(message) => Some(text(Status::ServerError, message@)),
        Ok(false) => Some(text(Status::NotFound, "Product not found"@)),
        Ok(true) => None,
    }
}

/// An image, after its address was added to the product: `updated` tells whether the store
/// found the product.
pub fn upload_product_image_on_update(updated: Result<bool, String>) -> (r: Result<(), Reply>)
    ensures
        match r {
            Ok(_) => update_refusal(updated) is None,
            Err(reply) => update_refusal(updated) == Some(reply@),
        },
{
    match updated {
        Err(message) => Err(Reply::owned_text(Status::ServerError, message)),
        Ok(false) => Err(Reply::text(Status::NotFound, "Product not found")),
        Ok(true) => Ok(()),
    }
}

/// The reply once every field of the form was handled.
pub fn upload_product_image_done() -> (reply: Reply)
    ensures
        reply@ == bare(Status::Success),
{
    Reply::bare(Status::Success)
}

/// The part of the catalogue that a page shows.
#[derive(Clone, Copy, Debug, PartialEq, Eq)]
pub struct PageWindow {
    /// How many products to pass over.
    pub skip: i64,
    /// How many products to show at most.
    pub limit: i64,
}

/// The first product of a page: pages count from one, and a page below one is the first.
pub open spec fn page_skip(page: int) -> int {
    if page < 1 {
        0
    } else {
        (page - 1) * PAGE_SIZE
    }
}

/// The window of a page.
pub fn page_window(query: &ProductPaginate) -> (window: PageWindow)
    ensures
        window.skip == page_skip(query.page as int),
        window.limit == PAGE_SIZE,
{
    let page: i64 = if query.page < 1 {
        1
    } else {
        query.page as i64
    };
    PageWindow { skip: (page - 1) * PAGE_SIZE, limit: PAGE_SIZE }
}

/// Where reading a list from the store can fail.
#[derive(Clone, Copy, Debug, PartialEq, Eq, Structural)]
pub enum CursorStage {
    /// The query itself.
    Open,
    /// The step to the next document.
    Advance,
    /// The reading of a document.
    Read,
}

/// The message for a failure to list a page of products.
pub open spec fn listing_failure(stage: CursorStage) -> Seq<char> {
    match stage {
        CursorStage::Open => "Failed to fetch products here 1"@,
        CursorStage::Advance => "Failed to fetch products here 2"@,
        CursorStage::Read => "something went wrong"@,
    }
}

/// The reply to a failure to list a page of products.
pub fn get_all_products_failure(stage: CursorStage) -> (reply: Reply)
    ensures
        reply@ == text(Status::ServerError, listing_failure(stage)),
{
    match stage {
        CursorStage::Open => Reply::text(Status::ServerError, "Failed to fetch products here 1"),
        CursorStage::Advance => Reply::text(
            Status::ServerError,
            "Failed to fetch products here 2",
        ),
        CursorStage::Read => Reply::text(Status::ServerError, "something went wrong"),
    }
}

/// The message for a failure to search the catalogue.
pub open spec fn search_failure(stage: CursorStage) -> Seq<char> {
    match stage {
        CursorStage::Open => "Error while fetching products"@,
        CursorStage::Advance => "Something went wrong"@,
        CursorStage::Read => "Failed"@,
    }
}

/// The reply to a failure to search the catalogue.
pub fn filter_products_failure(stage: CursorStage) -> (reply: Reply)
    ensures
        reply@ == text(Status::ServerError, search_failure(stage)),
{
    match stage {
        CursorStage::Open => Reply::text(Status::ServerError, "Error while fetching products"),
        CursorStage::Advance => Reply::text(Status::ServerError, "Something went wrong"),
        CursorStage::Read => Reply::text(Status::ServerError, "Failed"),
    }
}

/// A text of a search, as a list: the text itself where it is given and not empty, else
/// nothing.
pub open spec fn term(value: Option<String>) -> Seq<Seq<char>> {
    match value {
        Some(t) => if t@.len() == 0 {
            seq![]
        } else {
            seq![t@]
        },
        None => seq![],
    }
}

/// The texts that a search looks for: title, brand and category, in this order, each only
/// where it is given and not empty.
pub open spec fn search_terms_spec(query: ProductFilter) -> Seq<Seq<char>> {
    term(query.title) + term(query.brand) + term(query.category)
}

/// The texts of a list.
pub open spec fn texts(list: Seq<String>) -> Seq<Seq<char>> {
    Seq::new(list.len(), |i: int| list[i]@)
}

/// Adds a text of a search to the list where it is given and not empty.
fn push_term(list: &mut Vec<String>, value: Option<String>)
    ensures
        texts(final(list)@) == texts(old(list)@) + term(value),
{
    match value {
        Some(t) => {
            if !t.as_str().is_empty() {
                list.push(t);
            }
        },
        None => {},
    }
    assert(texts(list@) =~= texts(old(list)@) + term(value));
}

/// Collects the texts that a search looks for.
pub fn search_terms(query: ProductFilter) -> (list: Vec<String>)
    ensures
        texts(list@) == search_terms_spec(query),
{
    let mut list: Vec<String> = Vec::new();
    assert(texts(list@) =~= Seq::<Seq<char>>::empty());
    push_term(&mut list, query.title);
    push_term(&mut list, query.brand);
    push_term(&mut list, query.category);
    assert(texts(list@) =~= search_terms_spec(query));
    list
}

} // verus!
