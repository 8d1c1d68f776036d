//! The ways in which decoding or rendering a class file can fail.
//!
//! Every failure is final: offsets are tracked sequentially, so one entry
//! that cannot be decoded leaves nothing after it that could be trusted.

use crate::text::same_text;
use vstd::prelude::*;

verus! {

/// The kinds of constant pool entry that this decoder understands.
#[derive(Clone, Copy, Debug, PartialEq, Eq, Structural)]
pub enum ConstantKind {
    Class,
    Fieldref,
    Methodref,
    String,
    NameAndType,
    Utf8,
}

/// The attribute names that the class file format defines.
#[derive(Clone, Copy, Debug, PartialEq, Eq, Structural)]
pub enum AttributeKind {
    AnnotationDefault,
    BootstrapMethods,
    Code,
    ConstantValue,
    Deprecated,
    EnclosingMethod,
    Exceptions,
    InnerClasses,
    LineNumberTable,
    LocalVariableTable,
    LocalVariableTypeTable,
    MethodParameters,
    Module,
    ModuleMainClass,
    ModulePackages,
    NestHost,
    NestMembers,
    PermittedSubclasses,
    Record,
    RuntimeInvisibleAnnotations,
    RuntimeInvisibleParameterAnnotations,
    RuntimeInvisibleTypeAnnotations,
    RuntimeVisibleAnnotations,
    RuntimeVisibleParameterAnnotations,
    RuntimeVisibleTypeAnnotations,
    Signature,
    SourceDebugExtension,
    SourceFile,
    StackMapTable,
    Synthetic,
}

impl AttributeKind {
    /// The attribute's name as the class file writes it.
    pub open spec fn spec_name(self) -> Seq<char> {
        match self {
            AttributeKind::AnnotationDefault => "AnnotationDefault"@,
            AttributeKind::BootstrapMethods => "BootstrapMethods"@,
            AttributeKind::Code => "Code"@,
            AttributeKind::ConstantValue => "ConstantValue"@,
            AttributeKind::Deprecated => "Deprecated"@,
            AttributeKind::EnclosingMethod => "EnclosingMethod"@,
            AttributeKind::Exceptions => "Exceptions"@,
            AttributeKind::InnerClasses => "InnerClasses"@,
            AttributeKind::LineNumberTable => "LineNumberTable"@,
            AttributeKind::LocalVariableTable => "LocalVariableTable"@,
            AttributeKind::LocalVariableTypeTable => "LocalVariableTypeTable"@,
            AttributeKind::MethodParameters => "MethodParameters"@,
            AttributeKind::Module => "Module"@,
            AttributeKind::ModuleMainClass => "ModuleMainClass"@,
            AttributeKind::ModulePackages => "ModulePackages"@,
            AttributeKind::NestHost => "NestHost"@,
            AttributeKind::NestMembers => "NestMembers"@,
            AttributeKind::PermittedSubclasses => "PermittedSubclasses"@,
            AttributeKind::Record => "Record"@,
            AttributeKind::RuntimeInvisibleAnnotations => "RuntimeInvisibleAnnotations"@,
            AttributeKind::RuntimeInvisibleParameterAnnotations => "RuntimeInvisibleParameterAnnotations"@,
            AttributeKind::RuntimeInvisibleTypeAnnotations => "RuntimeInvisibleTypeAnnotations"@,
            AttributeKind::RuntimeVisibleAnnotations => "RuntimeVisibleAnnotations"@,
            AttributeKind::RuntimeVisibleParameterAnnotations => "RuntimeVisibleParameterAnnotations"@,
            AttributeKind::RuntimeVisibleTypeAnnotations => "RuntimeVisibleTypeAnnotations"@,
            AttributeKind::Signature => "Signature"@,
            AttributeKind::SourceDebugExtension => "SourceDebugExtension"@,
            AttributeKind::SourceFile => "SourceFile"@,
            AttributeKind::StackMapTable => "StackMapTable"@,
            AttributeKind::Synthetic => "Synthetic"@,
        }
    }

    /// The kind of attribute that `name` names, where it names one.
    pub open spec fn of_name(name: Seq<char>) -> Option<AttributeKind> {
        if name == "AnnotationDefault"@ {
            Some(AttributeKind::AnnotationDefault)
        } else if name == "BootstrapMethods"@ {
            Some(AttributeKind::BootstrapMethods)
        } else if name == "Code"@ {
            Some(AttributeKind::Code)
        } else if name == "ConstantValue"@ {
            Some(AttributeKind::ConstantValue)
        } else if name == "Deprecated"@ {
            Some(AttributeKind::Deprecated)
        } else if name == "EnclosingMethod"@ {
            Some(AttributeKind::EnclosingMethod)
        } else if name == "Exceptions"@ {
            Some(AttributeKind::Exceptions)
        } else if name == "InnerClasses"@ {
            Some(AttributeKind::InnerClasses)
        } else if name == "LineNumberTable"@ {
            Some(AttributeKind::LineNumberTable)
        } else if name == "LocalVariableTable"@ {
            Some(AttributeKind::LocalVariableTable)
        } else if name == "LocalVariableTypeTable"@ {
            Some(AttributeKind::LocalVariableTypeTable)
        } else if name == "MethodParameters"@ {
            Some(AttributeKind::MethodParameters)
        } else if name == "Module"@ {
            Some(AttributeKind::Module)
        } else if name == "ModuleMainClass"@ {
            Some(AttributeKind::ModuleMainClass)
        } else if name == "ModulePackages"@ {
            Some(AttributeKind::ModulePackages)
        } else if name == "NestHost"@ {
            Some(AttributeKind::NestHost)
        } else if name == "NestMembers"@ {
            Some(AttributeKind::NestMembers)
        } else if name == "PermittedSubclasses"@ {
            Some(AttributeKind::PermittedSubclasses)
        } else if name == "Record"@ {
            Some(AttributeKind::Record)
        } else if name == "RuntimeInvisibleAnnotations"@ {
            Some(AttributeKind::RuntimeInvisibleAnnotations)
        } else if name == "RuntimeInvisibleParameterAnnotations"@ {
            Some(AttributeKind::RuntimeInvisibleParameterAnnotations)
        } else if name == "RuntimeInvisibleTypeAnnotations"@ {
            Some(AttributeKind::RuntimeInvisibleTypeAnnotations)
        } else if name == "RuntimeVisibleAnnotations"@ {
            Some(AttributeKind::RuntimeVisibleAnnotations)
        } else if name == "RuntimeVisibleParameterAnnotations"@ {
            Some(AttributeKind::RuntimeVisibleParameterAnnotations)
        } else if name == "RuntimeVisibleTypeAnnotations"@ {
            Some(AttributeKind::RuntimeVisibleTypeAnnotations)
        } else if name == "Signature"@ {
            Some(AttributeKind::Signature)
        } else if name == "SourceDebugExtension"@ {
            Some(AttributeKind::SourceDebugExtension)
        } else if name == "SourceFile"@ {
            Some(AttributeKind::SourceFile)
        } else if name == "StackMapTable"@ {
            Some(AttributeKind::StackMapTable)
        } else if name == "Synthetic"@ {
            Some(AttributeKind::Synthetic)
        } else {
            None
        }
    }

    /// The attribute's name as the class file writes it.
    pub fn name(&self) -> (name: &'static str)
        ensures
            name@ == self.spec_name(),
    {
        match self {
            AttributeKind::AnnotationDefault => "AnnotationDefault",
            AttributeKind::BootstrapMethods => "BootstrapMethods",
            AttributeKind::Code => "Code",
            AttributeKind::ConstantValue => "ConstantValue",
            AttributeKind::Deprecated => "Deprecated",
            AttributeKind::EnclosingMethod => "EnclosingMethod",
            AttributeKind::Exceptions => "Exceptions",
            AttributeKind::InnerClasses => "InnerClasses",
            AttributeKind::LineNumberTable => "LineNumberTable",
            AttributeKind::LocalVariableTable => "LocalVariableTable",
            AttributeKind::LocalVariableTypeTable => "LocalVariableTypeTable",
            AttributeKind::MethodParameters => "MethodParameters",
            AttributeKind::Module => "Module",
            AttributeKind::ModuleMainClass => "ModuleMainClass",
            AttributeKind::ModulePackages => "ModulePackages",
            AttributeKind::NestHost => "NestHost",
            AttributeKind::NestMembers => "NestMembers",
            AttributeKind::PermittedSubclasses => "PermittedSubclasses",
            AttributeKind::Record => "Record",
            AttributeKind::RuntimeInvisibleAnnotations => "RuntimeInvisibleAnnotations",
            AttributeKind::RuntimeInvisibleParameterAnnotations => "RuntimeInvisibleParameterAnnotations",
            AttributeKind::RuntimeInvisibleTypeAnnotations => "RuntimeInvisibleTypeAnnotations",
            AttributeKind::RuntimeVisibleAnnotations => "RuntimeVisibleAnnotations",
            AttributeKind::RuntimeVisibleParameterAnnotations => "RuntimeVisibleParameterAnnotations",
            AttributeKind::RuntimeVisibleTypeAnnotations => "RuntimeVisibleTypeAnnotations",
            AttributeKind::Signature => "Signature",
            AttributeKind::SourceDebugExtension => "SourceDebugExtension",
            AttributeKind::SourceFile => "SourceFile",
            AttributeKind::StackMapTable => "StackMapTable",
            AttributeKind::Synthetic => "Synthetic",
        }
    }

    /// The kind of attribute that `name` names, where it names one.
    pub fn from_name(name: &str) -> (kind: Option<AttributeKind>)
        ensures
            kind == Self::of_name(name@),
    {
        if same_text(name, "AnnotationDefault") {
            Some(AttributeKind::AnnotationDefault)
        } else if same_text(name, "BootstrapMethods") {
            Some(AttributeKind::BootstrapMethods)
        } else if same_text(name, "Code") {
            Some(AttributeKind::Code)
        } else if same_text(name, "ConstantValue") {
            Some(AttributeKind::ConstantValue)
        } else if same_text(name, "Deprecated") {
            Some(AttributeKind::Deprecated)
        } else if same_text(name, "EnclosingMethod") {
            Some(AttributeKind::EnclosingMethod)
        } else if same_text(name, "Exceptions") {
            Some(AttributeKind::Exceptions)
        } else if same_text(name, "InnerClasses") {
            Some(AttributeKind::InnerClasses)
        } else if same_text(name, "LineNumberTable") {
            Some(AttributeKind::LineNumberTable)
        } else if same_text(name, "LocalVariableTable") {
            Some(AttributeKind::LocalVariableTable)
        } else if same_text(name, "LocalVariableTypeTable") {
            Some(AttributeKind::LocalVariableTypeTable)
        } else if same_text(name, "MethodParameters") {
            Some(AttributeKind::MethodParameters)
        } else if same_text(name, "Module") {
            Some(AttributeKind::Module)
        } else if same_text(name, "ModuleMainClass") {
            Some(AttributeKind::ModuleMainClass)
        } else if same_text(name, "ModulePackages") {
            Some(AttributeKind::ModulePackages)
        } else if same_text(name, "NestHost") {
            Some(AttributeKind::NestHost)
        } else if same_text(name, "NestMembers") {
            Some(AttributeKind::NestMembers)
        } else if same_text(name, "PermittedSubclasses") {
            Some(AttributeKind::PermittedSubclasses)
        } else if same_text(name, "Record") {
            Some(AttributeKind::Record)
        } else if same_text(name, "RuntimeInvisibleAnnotations") {
            Some(AttributeKind::RuntimeInvisibleAnnotations)
        } else if same_text(name, "RuntimeInvisibleParameterAnnotations") {
            Some(AttributeKind::RuntimeInvisibleParameterAnnotations)
        } else if same_text(name, "RuntimeInvisibleTypeAnnotations") {
            Some(AttributeKind::RuntimeInvisibleTypeAnnotations)
        } else if same_text(name, "RuntimeVisibleAnnotations") {
            Some(AttributeKind::RuntimeVisibleAnnotations)
        } else if same_text(name, "RuntimeVisibleParameterAnnotations") {
            Some(AttributeKind::RuntimeVisibleParameterAnnotations)
        } else if same_text(name, "RuntimeVisibleTypeAnnotations") {
            Some(AttributeKind::RuntimeVisibleTypeAnnotations)
        } else if same_text(name, "Signature") {
            Some(AttributeKind::Signature)
        } else if same_text(name, "SourceDebugExtension") {
            Some(AttributeKind::SourceDebugExtension)
        } else if same_text(name, "SourceFile") {
            Some(AttributeKind::SourceFile)
        } else if same_text(name, "StackMapTable") {
            Some(AttributeKind::StackMapTable)
        } else if same_text(name, "Synthetic") {
            Some(AttributeKind::Synthetic)
        } else {
            None
        }
    }
}

/// A name that names a kind of attribute is that kind's name.
pub proof fn lemma_kind_of_name(name: Seq<char>)
    requires
        AttributeKind::of_name(name) is Some,
    ensures
        AttributeKind::of_name(name)->0.spec_name() == name,
{
}

/// Why a class file could not be decoded or rendered.
#[derive(Clone, Copy, Debug, PartialEq, Eq, Structural)]
pub enum DecodeError {
    /// The first four bytes are not the class file magic number.
    NotAClassFile,
    /// A read at `offset` needs more bytes than the buffer holds.
    BufferUnderrun { offset: usize },
    /// The constant pool entry that starts at `offset` has a tag that is
    /// not decoded here.
    UnsupportedConstantTag { tag: u8, offset: usize },
    /// The bytes of the Utf8 entry with pool index `index` are not valid
    /// UTF-8.
    InvalidUtf8 { index: usize },
    /// The attribute whose name index is `name_index` has a name that does
    /// not resolve to a known attribute name, or a payload that is cut
    /// short, or it is nested too deeply.
    MalformedAttribute { name_index: u16 },
    /// An attribute with a known name whose payload is not decoded here.
    NotYetImplemented { kind: AttributeKind },
    /// The byte at `offset` of a code array starts no instruction that has
    /// a decoding rule.
    UnimplementedOpcode { byte: u8, offset: usize },
    /// The pool entry at `index` was asked for as `expected` and is
    /// `actual`.
    WrongConstantKind { index: usize, expected: ConstantKind, actual: ConstantKind },
    /// `index` is zero or not below `pool_size`.
    IndexOutOfRange { index: usize, pool_size: usize },
    /// A text that should be a field or method descriptor is none.
    MalformedDescriptor,
}

} // verus!
