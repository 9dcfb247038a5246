//! Entries of the ledger's state: what the validator holds of a product, as the
//! bytes that it hands out.

use crate::wire::{
    fields, frame_views, lemma_fields_push, lemma_parse_fields_inverse,
    lemma_parse_fields_of_fields, lemma_parse_text_field_inverse,
    lemma_parse_text_field_of_text_field, parse_fields, parse_text_field, put_field,
    put_text_field, take_fields, take_text_field, text_field,
};
use vstd::prelude::*;
use vstd::slice::{slice_subrange, slice_to_vec};

verus! {

/// The tag of the identity in a product.
pub const TAG_PRODUCT_ID: u8 = 0x0A;

/// The tag of the kind of identity in a product.
pub const TAG_PRODUCT_TYPE: u8 = 0x10;

/// The tag of the owner in a product.
pub const TAG_OWNER: u8 = 0x1A;

/// The tag of a property in a product.
pub const TAG_PROPERTY: u8 = 0x22;

/// By what kind of identity a product is named.
#[derive(Clone, Copy, Debug, PartialEq, Eq, Structural)]
pub enum ProductType {
    /// No kind was set.
    Unset,
    /// A trade item number.
    Gs1,
}

impl ProductType {
    /// The number that names the kind in a product.
    pub open spec fn number_spec(self) -> u8 {
        match self {
            ProductType::Unset => 0,
            ProductType::Gs1 => 1,
        }
    }

    /// Computes the number that names the kind.
    pub fn number(&self) -> (n: u8)
        ensures
            n == self.number_spec(),
    {
        match self {
            ProductType::Unset => 0,
            ProductType::Gs1 => 1,
        }
    }

    /// The kind that a number names, if it names one.
    pub open spec fn of_number_spec(n: u8) -> Option<ProductType> {
        if n == 0 {
            Some(ProductType::Unset)
        } else if n == 1 {
            Some(ProductType::Gs1)
        } else {
            None
        }
    }

    /// Reads the kind that a number names.
    pub fn of_number(n: u8) -> (kind: Option<ProductType>)
        ensures
            kind == Self::of_number_spec(n),
    {
        if n == 0 {
            Some(ProductType::Unset)
        } else if n == 1 {
            Some(ProductType::Gs1)
        } else {
            None
        }
    }
}

/// A product as the ledger holds it. Its properties are kept as the bytes in
/// which each of them is written.
#[derive(Debug, PartialEq, Eq)]
pub struct Product {
    pub product_id: String,
    pub product_type: ProductType,
    pub owner: String,
    pub properties: Vec<Vec<u8>>,
}

/// The mathematical content of a `Product`.
pub ghost struct ProductView {
    pub product_id: Seq<char>,
    pub product_type: ProductType,
    pub owner: Seq<char>,
    pub properties: Seq<Seq<u8>>,
}

/// The bytes of each of `items`.
pub open spec fn byte_views(items: Seq<Vec<u8>>) -> Seq<Seq<u8>> {
    Seq::new(items.len(), |i: int| items[i]@)
}

impl View for Product {
    type V = ProductView;

    open spec fn view(&self) -> ProductView {
        ProductView {
            product_id: self.product_id@,
            product_type: self.product_type,
            owner: self.owner@,
            properties: byte_views(self.properties@),
        }
    }
}

/// The encoding of the kind of identity: its tag, then its number.
pub open spec fn encode_product_type(kind: ProductType) -> Seq<u8> {
    seq![TAG_PRODUCT_TYPE, kind.number_spec()]
}

/// The encoding of a product.
pub open spec fn encode_product(p: ProductView) -> Seq<u8> {
    text_field(TAG_PRODUCT_ID, p.product_id) + (encode_product_type(p.product_type) + (text_field(
        TAG_OWNER,
        p.owner,
    ) + fields(TAG_PROPERTY, p.properties)))
}

/// Reads the kind of identity from the front of `s`: the kind, and what
/// follows.
pub open spec fn parse_product_type(s: Seq<u8>) -> Option<(ProductType, Seq<u8>)> {
    if s.len() >= 2 && s[0] == TAG_PRODUCT_TYPE {
        match ProductType::of_number_spec(s[1]) {
            Some(kind) => Some((kind, s.skip(2))),
            None => None,
        }
    } else {
        None
    }
}

/// Reads a product; the whole input must be its encoding.
pub open spec fn parse_product(s: Seq<u8>) -> Option<ProductView> {
    match parse_text_field(s, TAG_PRODUCT_ID) {
        None => None,
        Some((product_id, s1)) => match parse_product_type(s1) {
            None => None,
            Some((product_type, s2)) => match parse_text_field(s2, TAG_OWNER) {
                None => None,
                Some((owner, s3)) => match parse_fields(s3, TAG_PROPERTY) {
                    None => None,
                    Some((properties, s4)) => if s4.len() == 0 {
                        Some(ProductView { product_id, product_type, owner, properties })
                    } else {
                        None
                    },
                },
            },
        },
    }
}

/// Reading the encoding of a product gives the product back.
pub proof fn lemma_parse_product_of_encoding(p: ProductView)
    ensures
        parse_product(encode_product(p)) == Some(p),
{
    let e4 = fields(TAG_PROPERTY, p.properties);
    let e3 = text_field(TAG_OWNER, p.owner) + e4;
    let e2 = encode_product_type(p.product_type) + e3;
    lemma_parse_text_field_of_text_field(TAG_PRODUCT_ID, p.product_id, e2);
    assert(e2.skip(2) =~= e3);
    lemma_parse_text_field_of_text_field(TAG_OWNER, p.owner, e4);
    lemma_parse_fields_of_fields(TAG_PROPERTY, p.properties, Seq::empty());
}

/// Whatever reads as a product is the encoding of that product.
pub proof fn lemma_parse_product_inverse(s: Seq<u8>)
    ensures
        parse_product(s) matches Some(p) ==> s == encode_product(p),
{
    if let Some(p) = parse_product(s) {
        lemma_parse_text_field_inverse(s, TAG_PRODUCT_ID);
        let (_, s1) = parse_text_field(s, TAG_PRODUCT_ID)->0;
        let (_, s2) = parse_product_type(s1)->0;
        assert(s1 =~= encode_product_type(p.product_type) + s2);
        lemma_parse_text_field_inverse(s2, TAG_OWNER);
        let (_, s3) = parse_text_field(s2, TAG_OWNER)->0;
        lemma_parse_fields_inverse(s3, TAG_PROPERTY);
    }
}

impl Product {
    /// Writes the encoding of the product.
    pub fn to_bytes(&self) -> (bytes: Vec<u8>)
        ensures
            bytes@ == encode_product(self@),
            parse_product(bytes@) == Some(self@),
    {
        let mut out: Vec<u8> = Vec::new();
        put_text_field(&mut out, TAG_PRODUCT_ID, self.product_id.as_str());
        out.push(TAG_PRODUCT_TYPE);
        out.push(self.product_type.number());
        put_text_field(&mut out, TAG_OWNER, self.owner.as_str());
        let ghost head = out@;
        let ghost all = byte_views(self.properties@);
        let mut i: usize = 0;
        while i < self.properties.len()
            invariant
                i <= self.properties.len(),
                all == byte_views(self.properties@),
                out@ == head + fields(TAG_PROPERTY, all.take(i as int)),
            decreases self.properties.len() - i,
        {
            put_field(&mut out, TAG_PROPERTY, self.properties[i].as_slice());
            proof {
                assert(all.take(i + 1) =~= all.take(i as int).push(all[i as int]));
                lemma_fields_push(TAG_PROPERTY, all.take(i as int), all[i as int]);
            }
            i += 1;
        }
        proof {
            assert(all.take(i as int) =~= all);
            assert(out@ =~= encode_product(self@));
            lemma_parse_product_of_encoding(self@);
        }
        out
    }

    /// Reads a product from its encoding; any other input is refused.
    pub fn from_bytes(bytes: &[u8]) -> (res: Option<Product>)
        ensures
            match parse_product(bytes@) {
                Some(p) => res matches Some(found) && found@ == p,
                None => res is None,
            },
    {
        let (product_id, s1) = take_text_field(bytes, TAG_PRODUCT_ID)?;
        if s1.len() < 2 || s1[0] != TAG_PRODUCT_TYPE {
            return None;
        }
        let product_type = ProductType::of_number(s1[1])?;
        let s2 = slice_subrange(s1, 2, s1.len());
        let (owner, s3) = take_text_field(s2, TAG_OWNER)?;
        let (frames, s4) = take_fields(s3, TAG_PROPERTY)?;
        if s4.len() != 0 {
            return None;
        }
        let ghost items = frame_views(frames@);
        let mut properties: Vec<Vec<u8>> = Vec::new();
        let mut i: usize = 0;
        while i < frames.len()
            invariant
                i <= frames.len(),
                items == frame_views(frames@),
                properties.len() == i,
                forall|k: int| 0 <= k < i ==> (#[trigger] properties[k])@ == items[k],
            decreases frames.len() - i,
        {
            properties.push(slice_to_vec(frames[i]));
            i += 1;
        }
        assert(byte_views(properties@) =~= items);
        Some(Product { product_id, product_type, owner, properties })
    }
}

} // verus!
