use vstd::prelude::*;
use vstd::string::*;

use crate::text::texts;

verus! {

/// Model that embeds English text in 768 dimensions.
pub const BGE_BASE_EN_V1_5: &'static str = "@cf/baai/bge-base-en-v1.5";

/// Model that embeds English text in 1024 dimensions.
pub const BGE_LARGE_EN_V1_5: &'static str = "@cf/baai/bge-large-en-v1.5";

/// Model that embeds English text in 384 dimensions.
pub const BGE_SMALL_EN_V1_5: &'static str = "@cf/baai/bge-small-en-v1.5";

/// One text or several texts.
pub enum StringOrArray {
    String(String),
    Array(Vec<String>),
}

/// A request to embed text.
pub struct TextEmbeddingsRequest {
    pub text: StringOrArray,
}

impl StringOrArray {
    /// One text.
    pub fn from_text(value: &str) -> (r: Self)
        ensures
            r matches StringOrArray::String(s) && s@ == value@,
    {
        StringOrArray::String(String::from_str(value))
    }

    /// Several texts, in order.
    pub fn from_texts(values: &Vec<&str>) -> (r: Self)
        ensures
            r matches StringOrArray::Array(a) && texts(a@) == values@.map_values(|v: &str| v@),
    {
        let mut a: Vec<String> = Vec::new();
        for i in 0..values.len()
            invariant
                a@.len() == i,
                forall|j: int| 0 <= j < i ==> #[trigger] a@[j]@ == values@[j]@,
        {
            a.push(String::from_str(values[i]));
        }
        assert(texts(a@) =~= values@.map_values(|v: &str| v@));
        StringOrArray::Array(a)
    }
}

} // verus!
