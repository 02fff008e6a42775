//! Knowledge base: the authorized universe of products the generator may
//! talk about. The pre-generation validator consults it so that no text is
//! ever produced about a product outside this set.

use vstd::prelude::*;
use vstd::seq_lib::*;

use crate::text::{contains_str, has_substring, lower_of, lowercase, str_eq};

verus! {

/// A known objection and its scripted answer.
#[derive(Debug, Clone)]
pub struct Objection {
    pub trigger: String,
    pub answer: String,
}

#[derive(Debug, Clone, Copy, PartialEq, Eq, Structural)]
pub enum MediaType {
    Image,
    Video,
}

#[derive(Debug, Clone)]
pub struct Media {
    pub id: String,
    pub media_type: MediaType,
    pub url: String,
}

/// A product of the authorized catalogue; the price is held in cents so
/// that money stays exact.
#[derive(Debug, Clone)]
pub struct Product {
    pub id: String,
    pub name: String,
    pub short_description: String,
    pub long_description: String,
    pub price_cents: u64,
    pub keywords: Vec<String>,
    pub objections: Vec<Objection>,
    pub media: Vec<Media>,
}

/// Some product of the catalogue carries exactly this identifier.
pub open spec fn spec_has_product(products: Seq<Product>, id: Seq<char>) -> bool {
    exists|i: int| 0 <= i < products.len() && products[i].id@ == id
}

/// One of the product's keywords contains the already case-folded query.
pub open spec fn spec_keyword_match(p: Product, lowered_query: Seq<char>) -> bool {
    exists|j: int|
        0 <= j < p.keywords.len() && has_substring(lower_of(p.keywords[j]@), lowered_query)
}

/// The products a sequence of references points at, in order.
pub open spec fn deref_products(s: Seq<&Product>) -> Seq<Product> {
    s.map_values(|p: &Product| *p)
}

/// Defines the authorized universe for generated text.
pub struct KnowledgeBaseEngine {
    pub products: Vec<Product>,
}

impl KnowledgeBaseEngine {
    pub fn new() -> (kb: Self)
        ensures
            kb.products@.len() == 0,
    {
        Self { products: Vec::new() }
    }

    /// Replaces the catalogue with the given products.
    pub fn load_products(&mut self, products: Vec<Product>)
        ensures
            final(self).products == products,
    {
        self.products = products;
    }

    /// Finds the first product carrying the identifier, if any.
    pub fn get_product(&self, id: &str) -> (found: Option<&Product>)
        ensures
            found is Some <==> spec_has_product(self.products@, id@),
            found matches Some(p) ==> exists|i: int|
                {
                    &&& 0 <= i < self.products@.len()
                    &&& self.products@[i] == *p
                    &&& self.products@[i].id@ == id@
                    &&& forall|j: int| 0 <= j < i ==> self.products@[j].id@ != id@
                },
    {
        let n = self.products.len();
        let mut i: usize = 0;
        while i < n
            invariant
                n == self.products@.len(),
                i <= n,
                forall|j: int| 0 <= j < i ==> self.products@[j].id@ != id@,
            decreases n - i,
        {
            if str_eq(self.products[i].id.as_str(), id) {
                return Some(&self.products[i]);
            }
            i += 1;
        }
        None
    }

    /// A product with this identifier exists in the catalogue.
    pub fn is_valid_product(&self, id: &str) -> (valid: bool)
        ensures
            valid == spec_has_product(self.products@, id@),
    {
        self.get_product(id).is_some()
    }

    /// The whole catalogue, in insertion order.
    pub fn get_all_products(&self) -> (all: &Vec<Product>)
        ensures
            all == &self.products,
    {
        &self.products
    }

    /// All products one of whose keywords contains the query,
    /// case-insensitively, in catalogue order.
    #[verifier::loop_isolation(false)]
    pub fn search_by_keyword<'a>(&'a self, keyword: &str) -> (hits: Vec<&'a Product>)
        ensures
            deref_products(hits@) == self.products@.filter(
                |p: Product| spec_keyword_match(p, lower_of(keyword@)),
            ),
    {
        let ghost pred = |p: Product| spec_keyword_match(p, lower_of(keyword@));
        let lowered = lowercase(keyword);
        let mut hits: Vec<&'a Product> = Vec::new();
        let n = self.products.len();
        let mut i: usize = 0;
        while i < n
            invariant
                n == self.products@.len(),
                i <= n,
                lowered@ == lower_of(keyword@),
                deref_products(hits@) == self.products@.take(i as int).filter(pred),
            decreases n - i,
        {
            let ghost old_hits = hits@;
            if product_matches(&self.products[i], lowered.as_str()) {
                hits.push(&self.products[i]);
                proof {
                    assert(deref_products(hits@) =~= deref_products(old_hits).push(
                        self.products@[i as int],
                    ));
                }
            }
            proof {
                self.products@.take(i as int).lemma_filter_push(self.products@[i as int], pred);
                assert(self.products@.take(i as int).push(self.products@[i as int])
                    =~= self.products@.take(i + 1));
            }
            i += 1;
        }
        proof {
            assert(self.products@.take(n as int) =~= self.products@);
            assert(pred =~= (|p: Product| spec_keyword_match(p, lower_of(keyword@))));
        }
        hits
    }
}

impl Default for KnowledgeBaseEngine {
    fn default() -> (kb: Self)
        ensures
            kb.products@.len() == 0,
    {
        Self::new()
    }
}

/// One of the product's keywords, case-folded, contains the case-folded
/// query handed in as `lowered_query`.
fn product_matches(p: &Product, lowered_query: &str) -> (hit: bool)
    ensures
        hit == spec_keyword_match(*p, lowered_query@),
{
    let n = p.keywords.len();
    let mut j: usize = 0;
    while j < n
        invariant
            n == p.keywords@.len(),
            j <= n,
            forall|k: int| 0 <= k < j
                ==> !has_substring(lower_of(p.keywords@[k]@), lowered_query@),
        decreases n - j,
    {
        let lowered_keyword = lowercase(p.keywords[j].as_str());
        if contains_str(lowered_keyword.as_str(), lowered_query) {
            return true;
        }
        j += 1;
    }
    false
}

} // verus!
