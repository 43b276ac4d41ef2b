//! Data declared in the source code that may leak into a binary file.

use super::leak_location::{SourceLocation, SourceLocationView};
use super::string_literal::{
    literal_bytes, parse_literal, parse_string_literal, string_literal_to_bytes,
    wide_char_mode_or_default, LiteralError, WideCharMode,
};
use super::LeakedDataType;
use crate::translation_unit::{Entity, EntityKind};
use std::sync::Arc;
use vstd::prelude::*;
use vstd::utf8::encode_utf8;

verus! {

/// Struct containing information on a piece of data from the source code, which
/// may leak into a binary file.
#[derive(Debug)]
pub struct PotentialLeak {
    /// Type of data leaked
    pub data_type: LeakedDataType,
    /// Leaked data, as represented in the source code
    pub data: Arc<String>,
    /// Byte pattern to match (i.e., leaked information, as represented in the
    /// binary file)
    pub bytes: Vec<u8>,
    /// Information on where the leaked data is declared in the source code
    pub declaration_metadata: Arc<SourceLocation>,
}

/// A potential leak as plain values.
pub struct PotentialLeakView {
    pub data_type: LeakedDataType,
    pub data: Seq<char>,
    pub bytes: Seq<u8>,
    pub declaration_metadata: SourceLocationView,
}

impl View for PotentialLeak {
    type V = PotentialLeakView;

    open spec fn view(&self) -> PotentialLeakView {
        PotentialLeakView {
            data_type: self.data_type,
            data: self.data@,
            bytes: self.bytes@,
            declaration_metadata: self.declaration_metadata@,
        }
    }
}

impl PartialEq for PotentialLeak {
    /// Two potential leaks are equal where their data is the same text.
    fn eq(&self, other: &Self) -> (r: bool) {
        let mine: &String = &self.data;
        let theirs: &String = &other.data;
        *mine == *theirs
    }
}

impl vstd::std_specs::cmp::PartialEqSpecImpl for PotentialLeak {
    open spec fn obeys_eq_spec() -> bool {
        true
    }

    open spec fn eq_spec(&self, other: &Self) -> bool {
        self.data@ == other.data@
    }
}

impl Eq for PotentialLeak {

}

/// Why an entity does not give a potential leak.
#[derive(Debug, Clone, Copy, PartialEq, Eq, Structural)]
pub enum ConversionError {
    /// The entity has no location.
    MissingLocation,
    /// The location of the entity lies in no file.
    MissingFile,
    /// The entity is a string literal without a display name.
    MissingDisplayName,
    /// The entity is neither a string literal nor the declaration of a
    /// struct or a class.
    UnsupportedKind,
    /// The entity is a string literal that cannot be decoded.
    Literal(LiteralError),
}

/// The name of an entity, or the empty text where it has none.
pub open spec fn name_or_empty(display_name: Option<String>) -> Seq<char> {
    match display_name {
        Some(name) => name@,
        None => Seq::empty(),
    }
}

/// The leak of a struct or a class with the name `name`: the pattern is the
/// name in UTF-8.
pub open spec fn name_leak(
    data_type: LeakedDataType,
    name: Seq<char>,
    origin: SourceLocationView,
) -> PotentialLeakView {
    PotentialLeakView {
        data_type,
        data: name,
        bytes: encode_utf8(name),
        declaration_metadata: origin,
    }
}

/// The leak of a string literal written as `literal`: the data is the
/// literal's payload as written, the pattern the bytes that the literal is
/// decoded to.
pub open spec fn literal_leak(
    literal: Seq<char>,
    mode: WideCharMode,
    origin: SourceLocationView,
) -> Result<PotentialLeakView, ConversionError> {
    match literal_bytes(literal, mode) {
        Err(e) => Err(ConversionError::Literal(e)),
        Ok(bytes) => Ok(
            PotentialLeakView {
                data_type: LeakedDataType::StringLiteral,
                data: parse_literal(literal).unwrap().1,
                bytes,
                declaration_metadata: origin,
            },
        ),
    }
}

/// The potential leak that an entity stands for, or why it stands for none.
pub open spec fn leak_of_entity(entity: Entity, mode: WideCharMode) -> Result<
    PotentialLeakView,
    ConversionError,
> {
    match entity.location {
        None => Err(ConversionError::MissingLocation),
        Some(location) => match location.file {
            None => Err(ConversionError::MissingFile),
            Some(file) => {
                let origin = SourceLocationView { file: file@, line: location.line as u64 };
                match entity.kind {
                    EntityKind::StringLiteral => match entity.display_name {
                        None => Err(ConversionError::MissingDisplayName),
                        Some(literal) => literal_leak(literal@, mode, origin),
                    },
                    EntityKind::StructDecl => Ok(
                        name_leak(
                            LeakedDataType::StructName,
                            name_or_empty(entity.display_name),
                            origin,
                        ),
                    ),
                    EntityKind::ClassDecl => Ok(
                        name_leak(
                            LeakedDataType::ClassName,
                            name_or_empty(entity.display_name),
                            origin,
                        ),
                    ),
                    EntityKind::Other => Err(ConversionError::UnsupportedKind),
                }
            },
        },
    }
}

impl ConversionError {
    /// The sentence that says why the entity gives no potential leak.
    pub open spec fn message_text(&self) -> Seq<char> {
        match self {
            ConversionError::MissingLocation => "Failed to get entity's location"@,
            ConversionError::MissingFile => "Failed to get entity's file location"@,
            ConversionError::MissingDisplayName => "Failed to get entity's display name"@,
            ConversionError::UnsupportedKind => "Unsupported entity kind"@,
            ConversionError::Literal(e) => e.message_text(),
        }
    }

    /// A sentence that says why the entity gives no potential leak.
    pub fn message(&self) -> (text: &'static str)
        ensures
            text@ == self.message_text(),
    {
        match self {
            ConversionError::MissingLocation => "Failed to get entity's location",
            ConversionError::MissingFile => "Failed to get entity's file location",
            ConversionError::MissingDisplayName => "Failed to get entity's display name",
            ConversionError::UnsupportedKind => "Unsupported entity kind",
            ConversionError::Literal(e) => e.message(),
        }
    }
}

impl PotentialLeak {
    /// The potential leak that an entity of a translation unit stands for: a
    /// string literal with the bytes it is decoded to, a struct or a class
    /// with the bytes of its name. Without a wide character mode, wide
    /// literals are encoded as on Unix-like platforms.
    pub fn try_from(entity: &Entity, wide_char_mode: Option<WideCharMode>) -> (result: Result<
        PotentialLeak,
        ConversionError,
    >)
        ensures
            match result {
                Ok(leak) => leak_of_entity(*entity, wide_char_mode_or_default(wide_char_mode))
                    == Ok::<PotentialLeakView, ConversionError>(leak@),
                Err(e) => leak_of_entity(*entity, wide_char_mode_or_default(wide_char_mode))
                    == Err::<PotentialLeakView, ConversionError>(e),
            },
    {
        let location = match &entity.location {
            Some(location) => location,
            None => {
                return Err(ConversionError::MissingLocation);
            },
        };
        let file_location = match &location.file {
            Some(file) => file,
            None => {
                return Err(ConversionError::MissingFile);
            },
        };

        match entity.kind {
            EntityKind::StringLiteral => {
                let leaked_information = match &entity.display_name {
                    Some(name) => name,
                    None => {
                        return Err(ConversionError::MissingDisplayName);
                    },
                };
                let string_content = match parse_string_literal(leaked_information.as_str()) {
                    Ok((_, content)) => content,
                    Err(e) => {
                        return Err(ConversionError::Literal(e));
                    },
                };
                let bytes = match string_literal_to_bytes(
                    leaked_information.as_str(),
                    wide_char_mode,
                ) {
                    Ok(bytes) => bytes,
                    Err(e) => {
                        return Err(ConversionError::Literal(e));
                    },
                };

                Ok(
                    PotentialLeak {
                        data_type: LeakedDataType::StringLiteral,
                        data: Arc::new(string_content.to_owned()),
                        bytes,
                        declaration_metadata: Arc::new(
                            SourceLocation { file: file_location.clone(), line: location.line as u64 },
                        ),
                    },
                )
            },
            EntityKind::StructDecl => Ok(
                Self::from_name(
                    LeakedDataType::StructName,
                    &entity.display_name,
                    file_location,
                    location.line,
                ),
            ),
            EntityKind::ClassDecl => Ok(
                Self::from_name(
                    LeakedDataType::ClassName,
                    &entity.display_name,
                    file_location,
                    location.line,
                ),
            ),
            EntityKind::Other => Err(ConversionError::UnsupportedKind),
        }
    }

    /// The potential leak of a struct or a class declared under
    /// `display_name`.
    fn from_name(
        data_type: LeakedDataType,
        display_name: &Option<String>,
        file: &String,
        line: u32,
    ) -> (leak: PotentialLeak)
        ensures
            leak@ == name_leak(
                data_type,
                name_or_empty(*display_name),
                SourceLocationView { file: file@, line: line as u64 },
            ),
    {
        let leaked_information = match display_name {
            Some(name) => name.clone(),
            None => String::new(),
        };
        PotentialLeak {
            data_type,
            bytes: leaked_information.as_str().as_bytes_vec(),
            data: Arc::new(leaked_information),
            declaration_metadata: Arc::new(SourceLocation { file: file.clone(), line: line as u64 }),
        }
    }
}

} // verus!
