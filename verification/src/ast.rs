//! The decoded form of a class file, and the mathematical view of each part.

use crate::error::AttributeKind;
use crate::text::views;
use vstd::prelude::*;

verus! {

/// One entry of the constant pool.
#[derive(Debug, PartialEq, Eq)]
pub enum CpInfo {
    ConstantClass { tag: u8, name_index: u16 },
    ConstantFieldref { tag: u8, class_index: u16, name_and_type_index: u16 },
    ConstantMethodref { tag: u8, class_index: u16, name_and_type_index: u16 },
    ConstantString { tag: u8, string_index: u16 },
    ConstantNameAndType { tag: u8, name_index: u16, descriptor_index: u16 },
    ConstantUtf8 { tag: u8, length: u16, bytes: Vec<u8>, bytes_str: String },
}

/// What a [`CpInfo`] holds, as plain mathematical values.
pub enum CpInfoView {
    ConstantClass { tag: u8, name_index: u16 },
    ConstantFieldref { tag: u8, class_index: u16, name_and_type_index: u16 },
    ConstantMethodref { tag: u8, class_index: u16, name_and_type_index: u16 },
    ConstantString { tag: u8, string_index: u16 },
    ConstantNameAndType { tag: u8, name_index: u16, descriptor_index: u16 },
    ConstantUtf8 { tag: u8, length: u16, bytes: Seq<u8>, bytes_str: Seq<char> },
}

impl View for CpInfo {
    type V = CpInfoView;

    open spec fn view(&self) -> CpInfoView {
        match self {
            CpInfo::ConstantClass { tag, name_index } => CpInfoView::ConstantClass {
                tag: *tag,
                name_index: *name_index,
            },
            CpInfo::ConstantFieldref {
                tag,
                class_index,
                name_and_type_index,
            } => CpInfoView::ConstantFieldref {
                tag: *tag,
                class_index: *class_index,
                name_and_type_index: *name_and_type_index,
            },
            CpInfo::ConstantMethodref {
                tag,
                class_index,
                name_and_type_index,
            } => CpInfoView::ConstantMethodref {
                tag: *tag,
                class_index: *class_index,
                name_and_type_index: *name_and_type_index,
            },
            CpInfo::ConstantString { tag, string_index } => CpInfoView::ConstantString {
                tag: *tag,
                string_index: *string_index,
            },
            CpInfo::ConstantNameAndType {
                tag,
                name_index,
                descriptor_index,
            } => CpInfoView::ConstantNameAndType {
                tag: *tag,
                name_index: *name_index,
                descriptor_index: *descriptor_index,
            },
            CpInfo::ConstantUtf8 { tag, length, bytes, bytes_str } => CpInfoView::ConstantUtf8 {
                tag: *tag,
                length: *length,
                bytes: bytes@,
                bytes_str: bytes_str@,
            },
        }
    }
}

/// One row of a `Code` attribute's exception table. A `catch_type` of zero
/// catches everything.
#[derive(Debug, Clone, Copy, PartialEq, Eq, Structural)]
pub struct ExceptionTable {
    pub start_pc: u16,
    pub end_pc: u16,
    pub handler_pc: u16,
    pub catch_type: u16,
}

/// One row of a line number table.
#[derive(Debug, Clone, Copy, PartialEq, Eq, Structural)]
pub struct LineNumberTableItem {
    pub start_pc: u16,
    pub line_number: u16,
}

/// An attribute of a class, a field, a method or a `Code` attribute.
///
/// Only `Code`, `LineNumberTable` and `SourceFile` are ever produced by the
/// decoder; the others name attributes whose payload it does not read.
#[derive(Debug, PartialEq, Eq)]
pub enum AttributeInfo {
    ConstantValue { attribute_name_index: u16, attribute_length: u32, constantvalue_index: u16 },
    Code {
        attribute_name_index: u16,
        attribute_length: u32,
        max_stack: u16,
        max_locals: u16,
        code_length: u32,
        code: Vec<u8>,
        exception_table_length: u16,
        exception_table: Vec<ExceptionTable>,
        attributes_count: u16,
        attributes: Vec<AttributeInfo>,
    },
    StackMapTable {  },
    Exceptions {  },
    InnerClasses {  },
    EnclosingMethod {  },
    Synthetic {  },
    Signature {  },
    SourceFile { attribute_name_index: u16, attribute_length: u32, sourcefile_index: u16 },
    SourceDebugExtension {  },
    LineNumberTable {
        attribute_name_index: u16,
        attribute_length: u32,
        line_number_table_length: u16,
        line_number_tables: Vec<LineNumberTableItem>,
    },
    LocalVariableTable {  },
    LocalVariableTypeTable {  },
    Deprecated {  },
    RuntimeVisibleAnnotations {  },
    RuntimeInvisibleAnnotations {  },
    RuntimeVisibleParameterAnnotations {  },
    RuntimeInvisibleParameterAnnotations {  },
    RuntimeVisibleTypeAnnotations {  },
    RuntimeInvisibleTypeAnnotations {  },
    AnnotationDefault {  },
    BootstrapMethods {  },
    MethodParameters {  },
    Module {  },
    ModulePackages {  },
    ModuleMainClass {  },
    NestHost {  },
    NestMembers {  },
    Record {  },
    PermittedSubclasses {  },
}

/// What an [`AttributeInfo`] holds, as plain mathematical values.
pub enum AttributeInfoView {
    ConstantValue { attribute_name_index: u16, attribute_length: u32, constantvalue_index: u16 },
    Code {
        attribute_name_index: u16,
        attribute_length: u32,
        max_stack: u16,
        max_locals: u16,
        code_length: u32,
        code: Seq<u8>,
        exception_table_length: u16,
        exception_table: Seq<ExceptionTable>,
        attributes_count: u16,
        attributes: Seq<AttributeInfoView>,
    },
    StackMapTable,
    Exceptions,
    InnerClasses,
    EnclosingMethod,
    Synthetic,
    Signature,
    SourceFile { attribute_name_index: u16, attribute_length: u32, sourcefile_index: u16 },
    SourceDebugExtension,
    LineNumberTable {
        attribute_name_index: u16,
        attribute_length: u32,
        line_number_table_length: u16,
        line_number_tables: Seq<LineNumberTableItem>,
    },
    LocalVariableTable,
    LocalVariableTypeTable,
    Deprecated,
    RuntimeVisibleAnnotations,
    RuntimeInvisibleAnnotations,
    RuntimeVisibleParameterAnnotations,
    RuntimeInvisibleParameterAnnotations,
    RuntimeVisibleTypeAnnotations,
    RuntimeInvisibleTypeAnnotations,
    AnnotationDefault,
    BootstrapMethods,
    MethodParameters,
    Module,
    ModulePackages,
    ModuleMainClass,
    NestHost,
    NestMembers,
    Record,
    PermittedSubclasses,
}

impl View for AttributeInfo {
    type V = AttributeInfoView;

    open spec fn view(&self) -> AttributeInfoView
        decreases self,
    {
        match self {
            AttributeInfo::ConstantValue {
                attribute_name_index,
                attribute_length,
                constantvalue_index,
            } => AttributeInfoView::ConstantValue {
                attribute_name_index: *attribute_name_index,
                attribute_length: *attribute_length,
                constantvalue_index: *constantvalue_index,
            },
            AttributeInfo::Code {
                attribute_name_index,
                attribute_length,
                max_stack,
                max_locals,
                code_length,
                code,
                exception_table_length,
                exception_table,
                attributes_count,
                attributes,
            } => AttributeInfoView::Code {
                attribute_name_index: *attribute_name_index,
                attribute_length: *attribute_length,
                max_stack: *max_stack,
                max_locals: *max_locals,
                code_length: *code_length,
                code: code@,
                exception_table_length: *exception_table_length,
                exception_table: exception_table@,
                attributes_count: *attributes_count,
                attributes: Seq::new(
                    attributes.len() as nat,
                    |i: int|
                        if 0 <= i < attributes.len() {
                            attributes[i]@
                        } else {
                            AttributeInfoView::Synthetic
                        },
                ),
            },
            AttributeInfo::StackMapTable {  } => AttributeInfoView::StackMapTable,
            AttributeInfo::Exceptions {  } => AttributeInfoView::Exceptions,
            AttributeInfo::InnerClasses {  } => AttributeInfoView::InnerClasses,
            AttributeInfo::EnclosingMethod {  } => AttributeInfoView::EnclosingMethod,
            AttributeInfo::Synthetic {  } => AttributeInfoView::Synthetic,
            AttributeInfo::Signature {  } => AttributeInfoView::Signature,
            AttributeInfo::SourceFile {
                attribute_name_index,
                attribute_length,
                sourcefile_index,
            } => AttributeInfoView::SourceFile {
                attribute_name_index: *attribute_name_index,
                attribute_length: *attribute_length,
                sourcefile_index: *sourcefile_index,
            },
            AttributeInfo::SourceDebugExtension {  } => AttributeInfoView::SourceDebugExtension,
            AttributeInfo::LineNumberTable {
                attribute_name_index,
                attribute_length,
                line_number_table_length,
                line_number_tables,
            } => AttributeInfoView::LineNumberTable {
                attribute_name_index: *attribute_name_index,
                attribute_length: *attribute_length,
                line_number_table_length: *line_number_table_length,
                line_number_tables: line_number_tables@,
            },
            AttributeInfo::LocalVariableTable {  } => AttributeInfoView::LocalVariableTable,
            AttributeInfo::LocalVariableTypeTable {  } => AttributeInfoView::LocalVariableTypeTable,
            AttributeInfo::Deprecated {  } => AttributeInfoView::Deprecated,
            AttributeInfo::RuntimeVisibleAnnotations {  } => AttributeInfoView::RuntimeVisibleAnnotations,
            AttributeInfo::RuntimeInvisibleAnnotations {
            } => AttributeInfoView::RuntimeInvisibleAnnotations,
            AttributeInfo::RuntimeVisibleParameterAnnotations {
            } => AttributeInfoView::RuntimeVisibleParameterAnnotations,
            AttributeInfo::RuntimeInvisibleParameterAnnotations {
            } => AttributeInfoView::RuntimeInvisibleParameterAnnotations,
            AttributeInfo::RuntimeVisibleTypeAnnotations {
            } => AttributeInfoView::RuntimeVisibleTypeAnnotations,
            AttributeInfo::RuntimeInvisibleTypeAnnotations {
            } => AttributeInfoView::RuntimeInvisibleTypeAnnotations,
            AttributeInfo::AnnotationDefault {  } => AttributeInfoView::AnnotationDefault,
            AttributeInfo::BootstrapMethods {  } => AttributeInfoView::BootstrapMethods,
            AttributeInfo::MethodParameters {  } => AttributeInfoView::MethodParameters,
            AttributeInfo::Module {  } => AttributeInfoView::Module,
            AttributeInfo::ModulePackages {  } => AttributeInfoView::ModulePackages,
            AttributeInfo::ModuleMainClass {  } => AttributeInfoView::ModuleMainClass,
            AttributeInfo::NestHost {  } => AttributeInfoView::NestHost,
            AttributeInfo::NestMembers {  } => AttributeInfoView::NestMembers,
            AttributeInfo::Record {  } => AttributeInfoView::Record,
            AttributeInfo::PermittedSubclasses {  } => AttributeInfoView::PermittedSubclasses,
        }
    }
}

/// A `Code` attribute's view holds the views of the attributes nested in it.
pub proof fn lemma_code_view_attributes(attribute: AttributeInfo)
    requires
        attribute is Code,
    ensures
        attribute@ is Code,
        attribute@->Code_attributes == views(attribute->Code_attributes@),
        attribute@->Code_code == attribute->Code_code@,
{
    reveal_with_fuel(<AttributeInfo as View>::view, 2);
    assert(attribute@->Code_attributes =~= views(attribute->Code_attributes@));
}

/// A field of the class.
#[derive(Debug, PartialEq, Eq)]
pub struct FieldInfo {
    pub access_flags: u16,
    pub name_index: u16,
    pub descriptor_index: u16,
    pub attributes_count: u16,
    pub attributes: Vec<AttributeInfo>,
}

/// What a [`FieldInfo`] holds, as plain mathematical values.
pub struct FieldInfoView {
    pub access_flags: u16,
    pub name_index: u16,
    pub descriptor_index: u16,
    pub attributes_count: u16,
    pub attributes: Seq<AttributeInfoView>,
}

impl View for FieldInfo {
    type V = FieldInfoView;

    open spec fn view(&self) -> FieldInfoView {
        FieldInfoView {
            access_flags: self.access_flags,
            name_index: self.name_index,
            descriptor_index: self.descriptor_index,
            attributes_count: self.attributes_count,
            attributes: views(self.attributes@),
        }
    }
}

/// A method of the class. Its `Code` attribute, where it has one, is among
/// `attributes`.
#[derive(Debug, PartialEq, Eq)]
pub struct MethodInfo {
    pub access_flags: u16,
    pub name_index: u16,
    pub descriptor_index: u16,
    pub attributes_count: u16,
    pub attributes: Vec<AttributeInfo>,
}

/// What a [`MethodInfo`] holds, as plain mathematical values.
pub struct MethodInfoView {
    pub access_flags: u16,
    pub name_index: u16,
    pub descriptor_index: u16,
    pub attributes_count: u16,
    pub attributes: Seq<AttributeInfoView>,
}

impl View for MethodInfo {
    type V = MethodInfoView;

    open spec fn view(&self) -> MethodInfoView {
        MethodInfoView {
            access_flags: self.access_flags,
            name_index: self.name_index,
            descriptor_index: self.descriptor_index,
            attributes_count: self.attributes_count,
            attributes: views(self.attributes@),
        }
    }
}

/// A decoded class file. Entry 0 of `cp_info` is a placeholder: the pool's
/// indices start at 1.
#[derive(Debug, PartialEq, Eq)]
pub struct ClassFile {
    pub magic: u32,
    pub minor_version: u16,
    pub major_version: u16,
    pub constant_pool_count: u16,
    pub cp_info: Vec<CpInfo>,
    pub access_flags: u16,
    pub this_class: u16,
    pub super_class: u16,
    pub interfaces_count: u16,
    pub interfaces: Vec<u16>,
    pub fields_count: u16,
    pub fields: Vec<FieldInfo>,
    pub methods_count: u16,
    pub methods: Vec<MethodInfo>,
    pub attributes_count: u16,
    pub attributes: Vec<AttributeInfo>,
}

/// What a [`ClassFile`] holds, as plain mathematical values.
pub struct ClassFileView {
    pub magic: u32,
    pub minor_version: u16,
    pub major_version: u16,
    pub constant_pool_count: u16,
    pub cp_info: Seq<CpInfoView>,
    pub access_flags: u16,
    pub this_class: u16,
    pub super_class: u16,
    pub interfaces_count: u16,
    pub interfaces: Seq<u16>,
    pub fields_count: u16,
    pub fields: Seq<FieldInfoView>,
    pub methods_count: u16,
    pub methods: Seq<MethodInfoView>,
    pub attributes_count: u16,
    pub attributes: Seq<AttributeInfoView>,
}

impl View for ClassFile {
    type V = ClassFileView;

    open spec fn view(&self) -> ClassFileView {
        ClassFileView {
            magic: self.magic,
            minor_version: self.minor_version,
            major_version: self.major_version,
            constant_pool_count: self.constant_pool_count,
            cp_info: views(self.cp_info@),
            access_flags: self.access_flags,
            this_class: self.this_class,
            super_class: self.super_class,
            interfaces_count: self.interfaces_count,
            interfaces: self.interfaces@,
            fields_count: self.fields_count,
            fields: views(self.fields@),
            methods_count: self.methods_count,
            methods: views(self.methods@),
            attributes_count: self.attributes_count,
            attributes: views(self.attributes@),
        }
    }
}

impl AttributeInfoView {
    /// The kind of this attribute.
    pub open spec fn kind(self) -> AttributeKind {
        match self {
            AttributeInfoView::ConstantValue { .. } => AttributeKind::ConstantValue,
            AttributeInfoView::Code { .. } => AttributeKind::Code,
            AttributeInfoView::StackMapTable => AttributeKind::StackMapTable,
            AttributeInfoView::Exceptions => AttributeKind::Exceptions,
            AttributeInfoView::InnerClasses => AttributeKind::InnerClasses,
            AttributeInfoView::EnclosingMethod => AttributeKind::EnclosingMethod,
            AttributeInfoView::Synthetic => AttributeKind::Synthetic,
            AttributeInfoView::Signature => AttributeKind::Signature,
            AttributeInfoView::SourceFile { .. } => AttributeKind::SourceFile,
            AttributeInfoView::SourceDebugExtension => AttributeKind::SourceDebugExtension,
            AttributeInfoView::LineNumberTable { .. } => AttributeKind::LineNumberTable,
            AttributeInfoView::LocalVariableTable => AttributeKind::LocalVariableTable,
            AttributeInfoView::LocalVariableTypeTable => AttributeKind::LocalVariableTypeTable,
            AttributeInfoView::Deprecated => AttributeKind::Deprecated,
            AttributeInfoView::RuntimeVisibleAnnotations => AttributeKind::RuntimeVisibleAnnotations,
            AttributeInfoView::RuntimeInvisibleAnnotations => AttributeKind::RuntimeInvisibleAnnotations,
            AttributeInfoView::RuntimeVisibleParameterAnnotations => AttributeKind::RuntimeVisibleParameterAnnotations,
            AttributeInfoView::RuntimeInvisibleParameterAnnotations => AttributeKind::RuntimeInvisibleParameterAnnotations,
            AttributeInfoView::RuntimeVisibleTypeAnnotations => AttributeKind::RuntimeVisibleTypeAnnotations,
            AttributeInfoView::RuntimeInvisibleTypeAnnotations => AttributeKind::RuntimeInvisibleTypeAnnotations,
            AttributeInfoView::AnnotationDefault => AttributeKind::AnnotationDefault,
            AttributeInfoView::BootstrapMethods => AttributeKind::BootstrapMethods,
            AttributeInfoView::MethodParameters => AttributeKind::MethodParameters,
            AttributeInfoView::Module => AttributeKind::Module,
            AttributeInfoView::ModulePackages => AttributeKind::ModulePackages,
            AttributeInfoView::ModuleMainClass => AttributeKind::ModuleMainClass,
            AttributeInfoView::NestHost => AttributeKind::NestHost,
            AttributeInfoView::NestMembers => AttributeKind::NestMembers,
            AttributeInfoView::Record => AttributeKind::Record,
            AttributeInfoView::PermittedSubclasses => AttributeKind::PermittedSubclasses,
        }
    }
}

impl AttributeInfo {
    /// The kind of this attribute.
    pub fn kind(&self) -> (kind: AttributeKind)
        ensures
            kind == self@.kind(),
    {
        match self {
            AttributeInfo::ConstantValue { .. } => AttributeKind::ConstantValue,
            AttributeInfo::Code { .. } => AttributeKind::Code,
            AttributeInfo::StackMapTable { .. } => AttributeKind::StackMapTable,
            AttributeInfo::Exceptions { .. } => AttributeKind::Exceptions,
            AttributeInfo::InnerClasses { .. } => AttributeKind::InnerClasses,
            AttributeInfo::EnclosingMethod { .. } => AttributeKind::EnclosingMethod,
            AttributeInfo::Synthetic { .. } => AttributeKind::Synthetic,
            AttributeInfo::Signature { .. } => AttributeKind::Signature,
            AttributeInfo::SourceFile { .. } => AttributeKind::SourceFile,
            AttributeInfo::SourceDebugExtension { .. } => AttributeKind::SourceDebugExtension,
            AttributeInfo::LineNumberTable { .. } => AttributeKind::LineNumberTable,
            AttributeInfo::LocalVariableTable { .. } => AttributeKind::LocalVariableTable,
            AttributeInfo::LocalVariableTypeTable { .. } => AttributeKind::LocalVariableTypeTable,
            AttributeInfo::Deprecated { .. } => AttributeKind::Deprecated,
            AttributeInfo::RuntimeVisibleAnnotations { .. } => AttributeKind::RuntimeVisibleAnnotations,
            AttributeInfo::RuntimeInvisibleAnnotations { .. } => AttributeKind::RuntimeInvisibleAnnotations,
            AttributeInfo::RuntimeVisibleParameterAnnotations { .. } => AttributeKind::RuntimeVisibleParameterAnnotations,
            AttributeInfo::RuntimeInvisibleParameterAnnotations { .. } => AttributeKind::RuntimeInvisibleParameterAnnotations,
            AttributeInfo::RuntimeVisibleTypeAnnotations { .. } => AttributeKind::RuntimeVisibleTypeAnnotations,
            AttributeInfo::RuntimeInvisibleTypeAnnotations { .. } => AttributeKind::RuntimeInvisibleTypeAnnotations,
            AttributeInfo::AnnotationDefault { .. } => AttributeKind::AnnotationDefault,
            AttributeInfo::BootstrapMethods { .. } => AttributeKind::BootstrapMethods,
            AttributeInfo::MethodParameters { .. } => AttributeKind::MethodParameters,
            AttributeInfo::Module { .. } => AttributeKind::Module,
            AttributeInfo::ModulePackages { .. } => AttributeKind::ModulePackages,
            AttributeInfo::ModuleMainClass { .. } => AttributeKind::ModuleMainClass,
            AttributeInfo::NestHost { .. } => AttributeKind::NestHost,
            AttributeInfo::NestMembers { .. } => AttributeKind::NestMembers,
            AttributeInfo::Record { .. } => AttributeKind::Record,
            AttributeInfo::PermittedSubclasses { .. } => AttributeKind::PermittedSubclasses,
        }
    }
}

} // verus!
