//! Items shared by the intermediate representations: the built-in functions
//! that a program may call, log format strings and source positions.
use vstd::prelude::*;
use vstd::string::*;
use crate::text::{dec_text, join_text, lemma_join_push, write_dec};

verus! {

/// A function built into the compiler, called by `ZirExpressionList::EmbedCall`.
#[derive(Debug, Clone, Copy, PartialEq, Eq, Hash, Structural)]
pub enum FlatEmbed {
    FieldToBoolUnsafe,
    BitArrayLe,
    Unpack,
    U8ToBits,
    U16ToBits,
    U32ToBits,
    U64ToBits,
    U8FromBits,
    U16FromBits,
    U32FromBits,
    U64FromBits,
}

/// The name under which a built-in function is printed.
pub open spec fn embed_id_text(e: FlatEmbed) -> Seq<char> {
    match e {
        FlatEmbed::FieldToBoolUnsafe => "_FIELD_TO_BOOL_UNSAFE"@,
        FlatEmbed::BitArrayLe => "_BIT_ARRAY_LT"@,
        FlatEmbed::Unpack => "_UNPACK"@,
        FlatEmbed::U8ToBits => "_U8_TO_BITS"@,
        FlatEmbed::U16ToBits => "_U16_TO_BITS"@,
        FlatEmbed::U32ToBits => "_U32_TO_BITS"@,
        FlatEmbed::U64ToBits => "_U64_TO_BITS"@,
        FlatEmbed::U8FromBits => "_U8_FROM_BITS"@,
        FlatEmbed::U16FromBits => "_U16_FROM_BITS"@,
        FlatEmbed::U32FromBits => "_U32_FROM_BITS"@,
        FlatEmbed::U64FromBits => "_U64_FROM_BITS"@,
    }
}

impl FlatEmbed {
    /// The name of the built-in function.
    pub fn id(&self) -> (r: &'static str)
        ensures
            r@ == embed_id_text(*self),
    {
        match self {
            FlatEmbed::FieldToBoolUnsafe => "_FIELD_TO_BOOL_UNSAFE",
            FlatEmbed::BitArrayLe => "_BIT_ARRAY_LT",
            FlatEmbed::Unpack => "_UNPACK",
            FlatEmbed::U8ToBits => "_U8_TO_BITS",
            FlatEmbed::U16ToBits => "_U16_TO_BITS",
            FlatEmbed::U32ToBits => "_U32_TO_BITS",
            FlatEmbed::U64ToBits => "_U64_TO_BITS",
            FlatEmbed::U8FromBits => "_U8_FROM_BITS",
            FlatEmbed::U16FromBits => "_U16_FROM_BITS",
            FlatEmbed::U32FromBits => "_U32_FROM_BITS",
            FlatEmbed::U64FromBits => "_U64_FROM_BITS",
        }
    }
}

/// The format string of a `log` statement, split at its `{}` placeholders.
#[derive(Debug, PartialEq, Eq, Hash)]
pub struct FormatString {
    pub parts: Vec<String>,
}

/// A format string is printed as its parts joined by `{}`.
pub open spec fn format_string_text(s: FormatString) -> Seq<char> {
    join_text(s.parts@.map_values(|p: String| p@), "{}"@)
}

impl Clone for FormatString {
    /// A format string with the same parts.
    fn clone(&self) -> (r: Self)
        ensures
            r.parts@ == self.parts@,
    {
        let mut parts: Vec<String> = Vec::new();
        let n = self.parts.len();
        let mut i: usize = 0;
        while i < n
            invariant
                n == self.parts.len(),
                i <= n,
                parts@ == self.parts@.take(i as int),
            decreases n - i,
        {
            parts.push(self.parts[i].clone());
            assert(parts@ == self.parts@.take(i + 1));
            i = i + 1;
        }
        assert(self.parts@.take(n as int) == self.parts@);
        FormatString { parts }
    }
}

impl FormatString {
    /// Appends the printed form of the format string.
    pub fn fmt(&self, f: &mut String)
        ensures
            final(f)@ == old(f)@ + format_string_text(*self),
    {
        let n = self.parts.len();
        let ghost parts = self.parts@.map_values(|p: String| p@);
        let mut i: usize = 0;
        while i < n
            invariant
                n == self.parts.len(),
                i <= n,
                parts == self.parts@.map_values(|p: String| p@),
                f@ == old(f)@ + join_text(parts.take(i as int), "{}"@),
            decreases n - i,
        {
            proof {
                lemma_join_push(parts.take(i as int), "{}"@, parts[i as int]);
                assert(parts.take(i + 1) == parts.take(i as int).push(parts[i as int]));
            }
            if i > 0 {
                f.append("{}");
            }
            f.append(self.parts[i].as_str());
            i = i + 1;
        }
        assert(parts.take(n as int) == parts);
    }
}

/// A line and column in a source file.
#[derive(Debug, Clone, Copy, PartialEq, Eq, Hash, Default, Structural)]
pub struct Position {
    pub line: usize,
    pub col: usize,
}

/// Where a piece of a program comes from, and what an assertion there reports.
#[derive(Debug, PartialEq, Eq, Hash)]
pub struct SourceMetadata {
    pub file: String,
    pub position: Position,
    pub message: Option<String>,
}

/// `file:line:col`, followed by `: "message"` where there is a message.
pub open spec fn source_metadata_text(m: SourceMetadata) -> Seq<char> {
    m.file@ + ":"@ + dec_text(m.position.line as nat) + ":"@ + dec_text(m.position.col as nat)
        + match m.message {
        Some(msg) => ": \""@ + msg@ + "\""@,
        None => Seq::empty(),
    }
}

impl Clone for SourceMetadata {
    /// Equal metadata.
    fn clone(&self) -> (r: Self)
        ensures
            r == *self,
    {
        let message = match &self.message {
            Some(m) => Some(m.clone()),
            None => None,
        };
        SourceMetadata { file: self.file.clone(), position: self.position, message }
    }
}

impl SourceMetadata {
    /// Appends the printed form of the metadata.
    pub fn fmt(&self, f: &mut String)
        ensures
            final(f)@ == old(f)@ + source_metadata_text(*self),
    {
        f.append(self.file.as_str());
        f.append(":");
        write_dec(f, self.position.line as u128);
        f.append(":");
        write_dec(f, self.position.col as u128);
        match &self.message {
            Some(msg) => {
                f.append(": \"");
                f.append(msg.as_str());
                f.append("\"");
            },
            None => {},
        }
    }
}

impl Default for SourceMetadata {
    /// No file, line and column zero, no message.
    fn default() -> (m: Self)
        ensures
            m.file@ == Seq::<char>::empty(),
            m.position == (Position { line: 0, col: 0 }),
            m.message is None,
    {
        SourceMetadata { file: String::new(), position: Position { line: 0, col: 0 }, message: None }
    }
}

} // verus!
