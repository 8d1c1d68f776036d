//! The instruction set: one opcode for each byte that starts an instruction.

use vstd::prelude::*;

verus! {

/// An instruction's opcode.
#[derive(Clone, Copy, Debug, PartialEq, Eq, Structural)]
pub enum Opcode {
    Nop,
    AconstNull,
    IconstM1,
    Iconst0,
    Iconst1,
    Iconst2,
    Iconst3,
    Iconst4,
    Iconst5,
    Lconst0,
    Lconst1,
    Fconst0,
    Fconst1,
    Fconst2,
    Dconst0,
    Dconst1,
    Bipush,
    Sipush,
    Ldc,
    LdcW,
    Ldc2W,
    Iload,
    Lload,
    Fload,
    Dload,
    Aload,
    Iload0,
    Iload1,
    Iload2,
    Iload3,
    Lload0,
    Lload1,
    Lload2,
    Lload3,
    Fload0,
    Fload1,
    Fload2,
    Fload3,
    Dload0,
    Dload1,
    Dload2,
    Dload3,
    Aload0,
    Aload1,
    Aload2,
    Aload3,
    Iaload,
    Laload,
    Faload,
    Daload,
    Aaload,
    Baload,
    Caload,
    Saload,
    Istore,
    Lstore,
    Fstore,
    Dstore,
    Astore,
    Istore0,
    Istore1,
    Istore2,
    Istore3,
    Lstore0,
    Lstore1,
    Lstore2,
    Lstore3,
    Fstore0,
    Fstore1,
    Fstore2,
    Fstore3,
    Dstore0,
    Dstore1,
    Dstore2,
    Dstore3,
    Astore0,
    Astore1,
    Astore2,
    Astore3,
    Iastore,
    Lastore,
    Fastore,
    Dastore,
    Aastore,
    Bastore,
    Castore,
    Sastore,
    Pop,
    Pop2,
    Dup,
    DupX1,
    DupX2,
    Dup2,
    Dup2X1,
    Dup2X2,
    Swap,
    Iadd,
    Ladd,
    Fadd,
    Dadd,
    Isub,
    Lsub,
    Fsub,
    Dsub,
    Imul,
    Lmul,
    Fmul,
    Dmul,
    Idiv,
    Ldiv,
    Fdiv,
    Ddiv,
    Irem,
    Lrem,
    Frem,
    Drem,
    Ineg,
    Lneg,
    Fneg,
    Dneg,
    Ishl,
    Lshl,
    Ishr,
    Lshr,
    Iushr,
    Lushr,
    Iand,
    Land,
    Ior,
    Lor,
    Ixor,
    Lxor,
    Iinc,
    I2l,
    I2f,
    I2d,
    L2i,
    L2f,
    L2d,
    F2i,
    F2l,
    F2d,
    D2i,
    D2l,
    D2f,
    I2b,
    I2c,
    I2s,
    Lcmp,
    Fcmpl,
    Fcmpg,
    Dcmpl,
    Dcmpg,
    Ifeq,
    Ifne,
    Iflt,
    Ifge,
    Ifgt,
    Ifle,
    IfIcmpeq,
    IfIcmpne,
    IfIcmplt,
    IfIcmpge,
    IfIcmpgt,
    IfIcmple,
    IfAcmpeq,
    IfAcmpne,
    Goto,
    Jsr,
    Ret,
    Tableswitch,
    Lookupswitch,
    Ireturn,
    Lreturn,
    Freturn,
    Dreturn,
    Areturn,
    Return,
    Getstatic,
    Putstatic,
    Getfield,
    Putfield,
    Invokevirtual,
    Invokespecial,
    Invokestatic,
    Invokeinterface,
    Invokedynamic,
    New,
    Newarray,
    Anewarray,
    Arraylength,
    Athrow,
    Checkcast,
    Instanceof,
    Monitorenter,
    Monitorexit,
    Wide,
    Multianewarray,
    Ifnull,
    Ifnonnull,
    GotoW,
    JsrW,
    Breakpoint,
    Impdep1,
    Impdep2,
}

impl Opcode {
    /// The byte that stands for this opcode in a code array.
    pub open spec fn byte(self) -> u8 {
        match self {
            Opcode::Nop => 0x00,
            Opcode::AconstNull => 0x01,
            Opcode::IconstM1 => 0x02,
            Opcode::Iconst0 => 0x03,
            Opcode::Iconst1 => 0x04,
            Opcode::Iconst2 => 0x05,
            Opcode::Iconst3 => 0x06,
            Opcode::Iconst4 => 0x07,
            Opcode::Iconst5 => 0x08,
            Opcode::Lconst0 => 0x09,
            Opcode::Lconst1 => 0x0a,
            Opcode::Fconst0 => 0x0b,
            Opcode::Fconst1 => 0x0c,
            Opcode::Fconst2 => 0x0d,
            Opcode::Dconst0 => 0x0e,
            Opcode::Dconst1 => 0x0f,
            Opcode::Bipush => 0x10,
            Opcode::Sipush => 0x11,
            Opcode::Ldc => 0x12,
            Opcode::LdcW => 0x13,
            Opcode::Ldc2W => 0x14,
            Opcode::Iload => 0x15,
            Opcode::Lload => 0x16,
            Opcode::Fload => 0x17,
            Opcode::Dload => 0x18,
            Opcode::Aload => 0x19,
            Opcode::Iload0 => 0x1a,
            Opcode::Iload1 => 0x1b,
            Opcode::Iload2 => 0x1c,
            Opcode::Iload3 => 0x1d,
            Opcode::Lload0 => 0x1e,
            Opcode::Lload1 => 0x1f,
            Opcode::Lload2 => 0x20,
            Opcode::Lload3 => 0x21,
            Opcode::Fload0 => 0x22,
            Opcode::Fload1 => 0x23,
            Opcode::Fload2 => 0x24,
            Opcode::Fload3 => 0x25,
            Opcode::Dload0 => 0x26,
            Opcode::Dload1 => 0x27,
            Opcode::Dload2 => 0x28,
            Opcode::Dload3 => 0x29,
            Opcode::Aload0 => 0x2a,
            Opcode::Aload1 => 0x2b,
            Opcode::Aload2 => 0x2c,
            Opcode::Aload3 => 0x2d,
            Opcode::Iaload => 0x2e,
            Opcode::Laload => 0x2f,
            Opcode::Faload => 0x30,
            Opcode::Daload => 0x31,
            Opcode::Aaload => 0x32,
            Opcode::Baload => 0x33,
            Opcode::Caload => 0x34,
            Opcode::Saload => 0x35,
            Opcode::Istore => 0x36,
            Opcode::Lstore => 0x37,
            Opcode::Fstore => 0x38,
            Opcode::Dstore => 0x39,
            Opcode::Astore => 0x3a,
            Opcode::Istore0 => 0x3b,
            Opcode::Istore1 => 0x3c,
            Opcode::Istore2 => 0x3d,
            Opcode::Istore3 => 0x3e,
            Opcode::Lstore0 => 0x3f,
            Opcode::Lstore1 => 0x40,
            Opcode::Lstore2 => 0x41,
            Opcode::Lstore3 => 0x42,
            Opcode::Fstore0 => 0x43,
            Opcode::Fstore1 => 0x44,
            Opcode::Fstore2 => 0x45,
            Opcode::Fstore3 => 0x46,
            Opcode::Dstore0 => 0x47,
            Opcode::Dstore1 => 0x48,
            Opcode::Dstore2 => 0x49,
            Opcode::Dstore3 => 0x4a,
            Opcode::Astore0 => 0x4b,
            Opcode::Astore1 => 0x4c,
            Opcode::Astore2 => 0x4d,
            Opcode::Astore3 => 0x4e,
            Opcode::Iastore => 0x4f,
            Opcode::Lastore => 0x50,
            Opcode::Fastore => 0x51,
            Opcode::Dastore => 0x52,
            Opcode::Aastore => 0x53,
            Opcode::Bastore => 0x54,
            Opcode::Castore => 0x55,
            Opcode::Sastore => 0x56,
            Opcode::Pop => 0x57,
            Opcode::Pop2 => 0x58,
            Opcode::Dup => 0x59,
            Opcode::DupX1 => 0x5a,
            Opcode::DupX2 => 0x5b,
            Opcode::Dup2 => 0x5c,
            Opcode::Dup2X1 => 0x5d,
            Opcode::Dup2X2 => 0x5e,
            Opcode::Swap => 0x5f,
            Opcode::Iadd => 0x60,
            Opcode::Ladd => 0x61,
            Opcode::Fadd => 0x62,
            Opcode::Dadd => 0x63,
            Opcode::Isub => 0x64,
            Opcode::Lsub => 0x65,
            Opcode::Fsub => 0x66,
            Opcode::Dsub => 0x67,
            Opcode::Imul => 0x68,
            Opcode::Lmul => 0x69,
            Opcode::Fmul => 0x6a,
            Opcode::Dmul => 0x6b,
            Opcode::Idiv => 0x6c,
            Opcode::Ldiv => 0x6d,
            Opcode::Fdiv => 0x6e,
            Opcode::Ddiv => 0x6f,
            Opcode::Irem => 0x70,
            Opcode::Lrem => 0x71,
            Opcode::Frem => 0x72,
            Opcode::Drem => 0x73,
            Opcode::Ineg => 0x74,
            Opcode::Lneg => 0x75,
            Opcode::Fneg => 0x76,
            Opcode::Dneg => 0x77,
            Opcode::Ishl => 0x78,
            Opcode::Lshl => 0x79,
            Opcode::Ishr => 0x7a,
            Opcode::Lshr => 0x7b,
            Opcode::Iushr => 0x7c,
            Opcode::Lushr => 0x7d,
            Opcode::Iand => 0x7e,
            Opcode::Land => 0x7f,
            Opcode::Ior => 0x80,
            Opcode::Lor => 0x81,
            Opcode::Ixor => 0x82,
            Opcode::Lxor => 0x83,
            Opcode::Iinc => 0x84,
            Opcode::I2l => 0x85,
            Opcode::I2f => 0x86,
            Opcode::I2d => 0x87,
            Opcode::L2i => 0x88,
            Opcode::L2f => 0x89,
            Opcode::L2d => 0x8a,
            Opcode::F2i => 0x8b,
            Opcode::F2l => 0x8c,
            Opcode::F2d => 0x8d,
            Opcode::D2i => 0x8e,
            Opcode::D2l => 0x8f,
            Opcode::D2f => 0x90,
            Opcode::I2b => 0x91,
            Opcode::I2c => 0x92,
            Opcode::I2s => 0x93,
            Opcode::Lcmp => 0x94,
            Opcode::Fcmpl => 0x95,
            Opcode::Fcmpg => 0x96,
            Opcode::Dcmpl => 0x97,
            Opcode::Dcmpg => 0x98,
            Opcode::Ifeq => 0x99,
            Opcode::Ifne => 0x9a,
            Opcode::Iflt => 0x9b,
            Opcode::Ifge => 0x9c,
            Opcode::Ifgt => 0x9d,
            Opcode::Ifle => 0x9e,
            Opcode::IfIcmpeq => 0x9f,
            Opcode::IfIcmpne => 0xa0,
            Opcode::IfIcmplt => 0xa1,
            Opcode::IfIcmpge => 0xa2,
            Opcode::IfIcmpgt => 0xa3,
            Opcode::IfIcmple => 0xa4,
            Opcode::IfAcmpeq => 0xa5,
            Opcode::IfAcmpne => 0xa6,
            Opcode::Goto => 0xa7,
            Opcode::Jsr => 0xa8,
            Opcode::Ret => 0xa9,
            Opcode::Tableswitch => 0xaa,
            Opcode::Lookupswitch => 0xab,
            Opcode::Ireturn => 0xac,
            Opcode::Lreturn => 0xad,
            Opcode::Freturn => 0xae,
            Opcode::Dreturn => 0xaf,
            Opcode::Areturn => 0xb0,
            Opcode::Return => 0xb1,
            Opcode::Getstatic => 0xb2,
            Opcode::Putstatic => 0xb3,
            Opcode::Getfield => 0xb4,
            Opcode::Putfield => 0xb5,
            Opcode::Invokevirtual => 0xb6,
            Opcode::Invokespecial => 0xb7,
            Opcode::Invokestatic => 0xb8,
            Opcode::Invokeinterface => 0xb9,
            Opcode::Invokedynamic => 0xba,
            Opcode::New => 0xbb,
            Opcode::Newarray => 0xbc,
            Opcode::Anewarray => 0xbd,
            Opcode::Arraylength => 0xbe,
            Opcode::Athrow => 0xbf,
            Opcode::Checkcast => 0xc0,
            Opcode::Instanceof => 0xc1,
            Opcode::Monitorenter => 0xc2,
            Opcode::Monitorexit => 0xc3,
            Opcode::Wide => 0xc4,
            Opcode::Multianewarray => 0xc5,
            Opcode::Ifnull => 0xc6,
            Opcode::Ifnonnull => 0xc7,
            Opcode::GotoW => 0xc8,
            Opcode::JsrW => 0xc9,
            Opcode::Breakpoint => 0xca,
            Opcode::Impdep1 => 0xfe,
            Opcode::Impdep2 => 0xff,
        }
    }

    /// The name under which a listing shows this opcode.
    pub open spec fn mnemonic(self) -> Seq<char> {
        match self {
            Opcode::Nop => "nop"@,
            Opcode::AconstNull => "aconst_null"@,
            Opcode::IconstM1 => "iconst_m1"@,
            Opcode::Iconst0 => "iconst_0"@,
            Opcode::Iconst1 => "iconst_1"@,
            Opcode::Iconst2 => "iconst_2"@,
            Opcode::Iconst3 => "iconst_3"@,
            Opcode::Iconst4 => "iconst_4"@,
            Opcode::Iconst5 => "iconst_5"@,
            Opcode::Lconst0 => "lconst_0"@,
            Opcode::Lconst1 => "lconst_1"@,
            Opcode::Fconst0 => "fconst_0"@,
            Opcode::Fconst1 => "fconst_1"@,
            Opcode::Fconst2 => "fconst_2"@,
            Opcode::Dconst0 => "dconst_0"@,
            Opcode::Dconst1 => "dconst_1"@,
            Opcode::Bipush => "bipush"@,
            Opcode::Sipush => "sipush"@,
            Opcode::Ldc => "ldc"@,
            Opcode::LdcW => "ldc_w"@,
            Opcode::Ldc2W => "ldc2_w"@,
            Opcode::Iload => "iload"@,
            Opcode::Lload => "lload"@,
            Opcode::Fload => "fload"@,
            Opcode::Dload => "dload"@,
            Opcode::Aload => "aload"@,
            Opcode::Iload0 => "iload_0"@,
            Opcode::Iload1 => "iload_1"@,
            Opcode::Iload2 => "iload_2"@,
            Opcode::Iload3 => "iload_3"@,
            Opcode::Lload0 => "lload_0"@,
            Opcode::Lload1 => "lload_1"@,
            Opcode::Lload2 => "lload_2"@,
            Opcode::Lload3 => "lload_3"@,
            Opcode::Fload0 => "fload_0"@,
            Opcode::Fload1 => "fload_1"@,
            Opcode::Fload2 => "fload_2"@,
            Opcode::Fload3 => "fload_3"@,
            Opcode::Dload0 => "dload_0"@,
            Opcode::Dload1 => "dload_1"@,
            Opcode::Dload2 => "dload_2"@,
            Opcode::Dload3 => "dload_3"@,
            Opcode::Aload0 => "aload_0"@,
            Opcode::Aload1 => "aload_1"@,
            Opcode::Aload2 => "aload_2"@,
            Opcode::Aload3 => "aload_3"@,
            Opcode::Iaload => "iaload"@,
            Opcode::Laload => "laload"@,
            Opcode::Faload => "faload"@,
            Opcode::Daload => "daload"@,
            Opcode::Aaload => "aaload"@,
            Opcode::Baload => "baload"@,
            Opcode::Caload => "caload"@,
            Opcode::Saload => "saload"@,
            Opcode::Istore => "istore"@,
            Opcode::Lstore => "lstore"@,
            Opcode::Fstore => "fstore"@,
            Opcode::Dstore => "dstore"@,
            Opcode::Astore => "astore"@,
            Opcode::Istore0 => "istore_0"@,
            Opcode::Istore1 => "istore_1"@,
            Opcode::Istore2 => "istore_2"@,
            Opcode::Istore3 => "istore_3"@,
            Opcode::Lstore0 => "lstore_0"@,
            Opcode::Lstore1 => "lstore_1"@,
            Opcode::Lstore2 => "lstore_2"@,
            Opcode::Lstore3 => "lstore_3"@,
            Opcode::Fstore0 => "fstore_0"@,
            Opcode::Fstore1 => "fstore_1"@,
            Opcode::Fstore2 => "fstore_2"@,
            Opcode::Fstore3 => "fstore_3"@,
            Opcode::Dstore0 => "dstore_0"@,
            Opcode::Dstore1 => "dstore_1"@,
            Opcode::Dstore2 => "dstore_2"@,
            Opcode::Dstore3 => "dstore_3"@,
            Opcode::Astore0 => "astore_0"@,
            Opcode::Astore1 => "astore_1"@,
            Opcode::Astore2 => "astore_2"@,
            Opcode::Astore3 => "astore_3"@,
            Opcode::Iastore => "iastore"@,
            Opcode::Lastore => "lastore"@,
            Opcode::Fastore => "fastore"@,
            Opcode::Dastore => "dastore"@,
            Opcode::Aastore => "aastore"@,
            Opcode::Bastore => "bastore"@,
            Opcode::Castore => "castore"@,
            Opcode::Sastore => "sastore"@,
            Opcode::Pop => "pop"@,
            Opcode::Pop2 => "pop2"@,
            Opcode::Dup => "dup"@,
            Opcode::DupX1 => "dup_x1"@,
            Opcode::DupX2 => "dup_x2"@,
            Opcode::Dup2 => "dup2"@,
            Opcode::Dup2X1 => "dup2_x1"@,
            Opcode::Dup2X2 => "dup2_x2"@,
            Opcode::Swap => "swap"@,
            Opcode::Iadd => "iadd"@,
            Opcode::Ladd => "ladd"@,
            Opcode::Fadd => "fadd"@,
            Opcode::Dadd => "dadd"@,
            Opcode::Isub => "isub"@,
            Opcode::Lsub => "lsub"@,
            Opcode::Fsub => "fsub"@,
            Opcode::Dsub => "dsub"@,
            Opcode::Imul => "imul"@,
            Opcode::Lmul => "lmul"@,
            Opcode::Fmul => "fmul"@,
            Opcode::Dmul => "dmul"@,
            Opcode::Idiv => "idiv"@,
            Opcode::Ldiv => "ldiv"@,
            Opcode::Fdiv => "fdiv"@,
            Opcode::Ddiv => "ddiv"@,
            Opcode::Irem => "irem"@,
            Opcode::Lrem => "lrem"@,
            Opcode::Frem => "frem"@,
            Opcode::Drem => "drem"@,
            Opcode::Ineg => "ineg"@,
            Opcode::Lneg => "lneg"@,
            Opcode::Fneg => "fneg"@,
            Opcode::Dneg => "dneg"@,
            Opcode::Ishl => "ishl"@,
            Opcode::Lshl => "lshl"@,
            Opcode::Ishr => "ishr"@,
            Opcode::Lshr => "lshr"@,
            Opcode::Iushr => "iushr"@,
            Opcode::Lushr => "lushr"@,
            Opcode::Iand => "iand"@,
            Opcode::Land => "land"@,
            Opcode::Ior => "ior"@,
            Opcode::Lor => "lor"@,
            Opcode::Ixor => "ixor"@,
            Opcode::Lxor => "lxor"@,
            Opcode::Iinc => "iinc"@,
            Opcode::I2l => "i2l"@,
            Opcode::I2f => "i2f"@,
            Opcode::I2d => "i2d"@,
            Opcode::L2i => "l2i"@,
            Opcode::L2f => "l2f"@,
            Opcode::L2d => "l2d"@,
            Opcode::F2i => "f2i"@,
            Opcode::F2l => "f2l"@,
            Opcode::F2d => "f2d"@,
            Opcode::D2i => "d2i"@,
            Opcode::D2l => "d2l"@,
            Opcode::D2f => "d2f"@,
            Opcode::I2b => "i2b"@,
            Opcode::I2c => "i2c"@,
            Opcode::I2s => "i2s"@,
            Opcode::Lcmp => "lcmp"@,
            Opcode::Fcmpl => "fcmpl"@,
            Opcode::Fcmpg => "fcmpg"@,
            Opcode::Dcmpl => "dcmpl"@,
            Opcode::Dcmpg => "dcmpg"@,
            Opcode::Ifeq => "ifeq"@,
            Opcode::Ifne => "ifne"@,
            Opcode::Iflt => "iflt"@,
            Opcode::Ifge => "ifge"@,
            Opcode::Ifgt => "ifgt"@,
            Opcode::Ifle => "ifle"@,
            Opcode::IfIcmpeq => "if_icmpeq"@,
            Opcode::IfIcmpne => "if_icmpne"@,
            Opcode::IfIcmplt => "if_icmplt"@,
            Opcode::IfIcmpge => "if_icmpge"@,
            Opcode::IfIcmpgt => "if_icmpgt"@,
            Opcode::IfIcmple => "if_icmple"@,
            Opcode::IfAcmpeq => "if_acmpeq"@,
            Opcode::IfAcmpne => "if_acmpne"@,
            Opcode::Goto => "goto"@,
            Opcode::Jsr => "jsr"@,
            Opcode::Ret => "ret"@,
            Opcode::Tableswitch => "tableswitch"@,
            Opcode::Lookupswitch => "lookupswitch"@,
            Opcode::Ireturn => "ireturn"@,
            Opcode::Lreturn => "lreturn"@,
            Opcode::Freturn => "freturn"@,
            Opcode::Dreturn => "dreturn"@,
            Opcode::Areturn => "areturn"@,
            Opcode::Return => "return"@,
            Opcode::Getstatic => "getstatic"@,
            Opcode::Putstatic => "putstatic"@,
            Opcode::Getfield => "getfield"@,
            Opcode::Putfield => "putfield"@,
            Opcode::Invokevirtual => "invokevirtual"@,
            Opcode::Invokespecial => "invokespecial"@,
            Opcode::Invokestatic => "invokestatic"@,
            Opcode::Invokeinterface => "invokeinterface"@,
            Opcode::Invokedynamic => "invokedynamic"@,
            Opcode::New => "new"@,
            Opcode::Newarray => "newarray"@,
            Opcode::Anewarray => "anewarray"@,
            Opcode::Arraylength => "arraylength"@,
            Opcode::Athrow => "athrow"@,
            Opcode::Checkcast => "checkcast"@,
            Opcode::Instanceof => "instanceof"@,
            Opcode::Monitorenter => "monitorenter"@,
            Opcode::Monitorexit => "monitorexit"@,
            Opcode::Wide => "wide"@,
            Opcode::Multianewarray => "multianewarray"@,
            Opcode::Ifnull => "ifnull"@,
            Opcode::Ifnonnull => "ifnonnull"@,
            Opcode::GotoW => "goto_w"@,
            Opcode::JsrW => "jsr_w"@,
            Opcode::Breakpoint => "breakpoint"@,
            Opcode::Impdep1 => "impdep1"@,
            Opcode::Impdep2 => "impdep2"@,
        }
    }

    /// The byte that stands for this opcode in a code array.
    pub fn to_byte(&self) -> (byte: u8)
        ensures
            byte == self.byte(),
    {
        match self {
            Opcode::Nop => 0x00,
            Opcode::AconstNull => 0x01,
            Opcode::IconstM1 => 0x02,
            Opcode::Iconst0 => 0x03,
            Opcode::Iconst1 => 0x04,
            Opcode::Iconst2 => 0x05,
            Opcode::Iconst3 => 0x06,
            Opcode::Iconst4 => 0x07,
            Opcode::Iconst5 => 0x08,
            Opcode::Lconst0 => 0x09,
            Opcode::Lconst1 => 0x0a,
            Opcode::Fconst0 => 0x0b,
            Opcode::Fconst1 => 0x0c,
            Opcode::Fconst2 => 0x0d,
            Opcode::Dconst0 => 0x0e,
            Opcode::Dconst1 => 0x0f,
            Opcode::Bipush => 0x10,
            Opcode::Sipush => 0x11,
            Opcode::Ldc => 0x12,
            Opcode::LdcW => 0x13,
            Opcode::Ldc2W => 0x14,
            Opcode::Iload => 0x15,
            Opcode::Lload => 0x16,
            Opcode::Fload => 0x17,
            Opcode::Dload => 0x18,
            Opcode::Aload => 0x19,
            Opcode::Iload0 => 0x1a,
            Opcode::Iload1 => 0x1b,
            Opcode::Iload2 => 0x1c,
            Opcode::Iload3 => 0x1d,
            Opcode::Lload0 => 0x1e,
            Opcode::Lload1 => 0x1f,
            Opcode::Lload2 => 0x20,
            Opcode::Lload3 => 0x21,
            Opcode::Fload0 => 0x22,
            Opcode::Fload1 => 0x23,
            Opcode::Fload2 => 0x24,
            Opcode::Fload3 => 0x25,
            Opcode::Dload0 => 0x26,
            Opcode::Dload1 => 0x27,
            Opcode::Dload2 => 0x28,
            Opcode::Dload3 => 0x29,
            Opcode::Aload0 => 0x2a,
            Opcode::Aload1 => 0x2b,
            Opcode::Aload2 => 0x2c,
            Opcode::Aload3 => 0x2d,
            Opcode::Iaload => 0x2e,
            Opcode::Laload => 0x2f,
            Opcode::Faload => 0x30,
            Opcode::Daload => 0x31,
            Opcode::Aaload => 0x32,
            Opcode::Baload => 0x33,
            Opcode::Caload => 0x34,
            Opcode::Saload => 0x35,
            Opcode::Istore => 0x36,
            Opcode::Lstore => 0x37,
            Opcode::Fstore => 0x38,
            Opcode::Dstore => 0x39,
            Opcode::Astore => 0x3a,
            Opcode::Istore0 => 0x3b,
            Opcode::Istore1 => 0x3c,
            Opcode::Istore2 => 0x3d,
            Opcode::Istore3 => 0x3e,
            Opcode::Lstore0 => 0x3f,
            Opcode::Lstore1 => 0x40,
            Opcode::Lstore2 => 0x41,
            Opcode::Lstore3 => 0x42,
            Opcode::Fstore0 => 0x43,
            Opcode::Fstore1 => 0x44,
            Opcode::Fstore2 => 0x45,
            Opcode::Fstore3 => 0x46,
            Opcode::Dstore0 => 0x47,
            Opcode::Dstore1 => 0x48,
            Opcode::Dstore2 => 0x49,
            Opcode::Dstore3 => 0x4a,
            Opcode::Astore0 => 0x4b,
            Opcode::Astore1 => 0x4c,
            Opcode::Astore2 => 0x4d,
            Opcode::Astore3 => 0x4e,
            Opcode::Iastore => 0x4f,
            Opcode::Lastore => 0x50,
            Opcode::Fastore => 0x51,
            Opcode::Dastore => 0x52,
            Opcode::Aastore => 0x53,
            Opcode::Bastore => 0x54,
            Opcode::Castore => 0x55,
            Opcode::Sastore => 0x56,
            Opcode::Pop => 0x57,
            Opcode::Pop2 => 0x58,
            Opcode::Dup => 0x59,
            Opcode::DupX1 => 0x5a,
            Opcode::DupX2 => 0x5b,
            Opcode::Dup2 => 0x5c,
            Opcode::Dup2X1 => 0x5d,
            Opcode::Dup2X2 => 0x5e,
            Opcode::Swap => 0x5f,
            Opcode::Iadd => 0x60,
            Opcode::Ladd => 0x61,
            Opcode::Fadd => 0x62,
            Opcode::Dadd => 0x63,
            Opcode::Isub => 0x64,
            Opcode::Lsub => 0x65,
            Opcode::Fsub => 0x66,
            Opcode::Dsub => 0x67,
            Opcode::Imul => 0x68,
            Opcode::Lmul => 0x69,
            Opcode::Fmul => 0x6a,
            Opcode::Dmul => 0x6b,
            Opcode::Idiv => 0x6c,
            Opcode::Ldiv => 0x6d,
            Opcode::Fdiv => 0x6e,
            Opcode::Ddiv => 0x6f,
            Opcode::Irem => 0x70,
            Opcode::Lrem => 0x71,
            Opcode::Frem => 0x72,
            Opcode::Drem => 0x73,
            Opcode::Ineg => 0x74,
            Opcode::Lneg => 0x75,
            Opcode::Fneg => 0x76,
            Opcode::Dneg => 0x77,
            Opcode::Ishl => 0x78,
            Opcode::Lshl => 0x79,
            Opcode::Ishr => 0x7a,
            Opcode::Lshr => 0x7b,
            Opcode::Iushr => 0x7c,
            Opcode::Lushr => 0x7d,
            Opcode::Iand => 0x7e,
            Opcode::Land => 0x7f,
            Opcode::Ior => 0x80,
            Opcode::Lor => 0x81,
            Opcode::Ixor => 0x82,
            Opcode::Lxor => 0x83,
            Opcode::Iinc => 0x84,
            Opcode::I2l => 0x85,
            Opcode::I2f => 0x86,
            Opcode::I2d => 0x87,
            Opcode::L2i => 0x88,
            Opcode::L2f => 0x89,
            Opcode::L2d => 0x8a,
            Opcode::F2i => 0x8b,
            Opcode::F2l => 0x8c,
            Opcode::F2d => 0x8d,
            Opcode::D2i => 0x8e,
            Opcode::D2l => 0x8f,
            Opcode::D2f => 0x90,
            Opcode::I2b => 0x91,
            Opcode::I2c => 0x92,
            Opcode::I2s => 0x93,
            Opcode::Lcmp => 0x94,
            Opcode::Fcmpl => 0x95,
            Opcode::Fcmpg => 0x96,
            Opcode::Dcmpl => 0x97,
            Opcode::Dcmpg => 0x98,
            Opcode::Ifeq => 0x99,
            Opcode::Ifne => 0x9a,
            Opcode::Iflt => 0x9b,
            Opcode::Ifge => 0x9c,
            Opcode::Ifgt => 0x9d,
            Opcode::Ifle => 0x9e,
            Opcode::IfIcmpeq => 0x9f,
            Opcode::IfIcmpne => 0xa0,
            Opcode::IfIcmplt => 0xa1,
            Opcode::IfIcmpge => 0xa2,
            Opcode::IfIcmpgt => 0xa3,
            Opcode::IfIcmple => 0xa4,
            Opcode::IfAcmpeq => 0xa5,
            Opcode::IfAcmpne => 0xa6,
            Opcode::Goto => 0xa7,
            Opcode::Jsr => 0xa8,
            Opcode::Ret => 0xa9,
            Opcode::Tableswitch => 0xaa,
            Opcode::Lookupswitch => 0xab,
            Opcode::Ireturn => 0xac,
            Opcode::Lreturn => 0xad,
            Opcode::Freturn => 0xae,
            Opcode::Dreturn => 0xaf,
            Opcode::Areturn => 0xb0,
            Opcode::Return => 0xb1,
            Opcode::Getstatic => 0xb2,
            Opcode::Putstatic => 0xb3,
            Opcode::Getfield => 0xb4,
            Opcode::Putfield => 0xb5,
            Opcode::Invokevirtual => 0xb6,
            Opcode::Invokespecial => 0xb7,
            Opcode::Invokestatic => 0xb8,
            Opcode::Invokeinterface => 0xb9,
            Opcode::Invokedynamic => 0xba,
            Opcode::New => 0xbb,
            Opcode::Newarray => 0xbc,
            Opcode::Anewarray => 0xbd,
            Opcode::Arraylength => 0xbe,
            Opcode::Athrow => 0xbf,
            Opcode::Checkcast => 0xc0,
            Opcode::Instanceof => 0xc1,
            Opcode::Monitorenter => 0xc2,
            Opcode::Monitorexit => 0xc3,
            Opcode::Wide => 0xc4,
            Opcode::Multianewarray => 0xc5,
            Opcode::Ifnull => 0xc6,
            Opcode::Ifnonnull => 0xc7,
            Opcode::GotoW => 0xc8,
            Opcode::JsrW => 0xc9,
            Opcode::Breakpoint => 0xca,
            Opcode::Impdep1 => 0xfe,
            Opcode::Impdep2 => 0xff,
        }
    }

    /// The name under which a listing shows this opcode.
    pub fn str(&self) -> (name: &'static str)
        ensures
            name@ == self.mnemonic(),
    {
        match self {
            Opcode::Nop => "nop",
            Opcode::AconstNull => "aconst_null",
            Opcode::IconstM1 => "iconst_m1",
            Opcode::Iconst0 => "iconst_0",
            Opcode::Iconst1 => "iconst_1",
            Opcode::Iconst2 => "iconst_2",
            Opcode::Iconst3 => "iconst_3",
            Opcode::Iconst4 => "iconst_4",
            Opcode::Iconst5 => "iconst_5",
            Opcode::Lconst0 => "lconst_0",
            Opcode::Lconst1 => "lconst_1",
            Opcode::Fconst0 => "fconst_0",
            Opcode::Fconst1 => "fconst_1",
            Opcode::Fconst2 => "fconst_2",
            Opcode::Dconst0 => "dconst_0",
            Opcode::Dconst1 => "dconst_1",
            Opcode::Bipush => "bipush",
            Opcode::Sipush => "sipush",
            Opcode::Ldc => "ldc",
            Opcode::LdcW => "ldc_w",
            Opcode::Ldc2W => "ldc2_w",
            Opcode::Iload => "iload",
            Opcode::Lload => "lload",
            Opcode::Fload => "fload",
            Opcode::Dload => "dload",
            Opcode::Aload => "aload",
            Opcode::Iload0 => "iload_0",
            Opcode::Iload1 => "iload_1",
            Opcode::Iload2 => "iload_2",
            Opcode::Iload3 => "iload_3",
            Opcode::Lload0 => "lload_0",
            Opcode::Lload1 => "lload_1",
            Opcode::Lload2 => "lload_2",
            Opcode::Lload3 => "lload_3",
            Opcode::Fload0 => "fload_0",
            Opcode::Fload1 => "fload_1",
            Opcode::Fload2 => "fload_2",
            Opcode::Fload3 => "fload_3",
            Opcode::Dload0 => "dload_0",
            Opcode::Dload1 => "dload_1",
            Opcode::Dload2 => "dload_2",
            Opcode::Dload3 => "dload_3",
            Opcode::Aload0 => "aload_0",
            Opcode::Aload1 => "aload_1",
            Opcode::Aload2 => "aload_2",
            Opcode::Aload3 => "aload_3",
            Opcode::Iaload => "iaload",
            Opcode::Laload => "laload",
            Opcode::Faload => "faload",
            Opcode::Daload => "daload",
            Opcode::Aaload => "aaload",
            Opcode::Baload => "baload",
            Opcode::Caload => "caload",
            Opcode::Saload => "saload",
            Opcode::Istore => "istore",
            Opcode::Lstore => "lstore",
            Opcode::Fstore => "fstore",
            Opcode::Dstore => "dstore",
            Opcode::Astore => "astore",
            Opcode::Istore0 => "istore_0",
            Opcode::Istore1 => "istore_1",
            Opcode::Istore2 => "istore_2",
            Opcode::Istore3 => "istore_3",
            Opcode::Lstore0 => "lstore_0",
            Opcode::Lstore1 => "lstore_1",
            Opcode::Lstore2 => "lstore_2",
            Opcode::Lstore3 => "lstore_3",
            Opcode::Fstore0 => "fstore_0",
            Opcode::Fstore1 => "fstore_1",
            Opcode::Fstore2 => "fstore_2",
            Opcode::Fstore3 => "fstore_3",
            Opcode::Dstore0 => "dstore_0",
            Opcode::Dstore1 => "dstore_1",
            Opcode::Dstore2 => "dstore_2",
            Opcode::Dstore3 => "dstore_3",
            Opcode::Astore0 => "astore_0",
            Opcode::Astore1 => "astore_1",
            Opcode::Astore2 => "astore_2",
            Opcode::Astore3 => "astore_3",
            Opcode::Iastore => "iastore",
            Opcode::Lastore => "lastore",
            Opcode::Fastore => "fastore",
            Opcode::Dastore => "dastore",
            Opcode::Aastore => "aastore",
            Opcode::Bastore => "bastore",
            Opcode::Castore => "castore",
            Opcode::Sastore => "sastore",
            Opcode::Pop => "pop",
            Opcode::Pop2 => "pop2",
            Opcode::Dup => "dup",
            Opcode::DupX1 => "dup_x1",
            Opcode::DupX2 => "dup_x2",
            Opcode::Dup2 => "dup2",
            Opcode::Dup2X1 => "dup2_x1",
            Opcode::Dup2X2 => "dup2_x2",
            Opcode::Swap => "swap",
            Opcode::Iadd => "iadd",
            Opcode::Ladd => "ladd",
            Opcode::Fadd => "fadd",
            Opcode::Dadd => "dadd",
            Opcode::Isub => "isub",
            Opcode::Lsub => "lsub",
            Opcode::Fsub => "fsub",
            Opcode::Dsub => "dsub",
            Opcode::Imul => "imul",
            Opcode::Lmul => "lmul",
            Opcode::Fmul => "fmul",
            Opcode::Dmul => "dmul",
            Opcode::Idiv => "idiv",
            Opcode::Ldiv => "ldiv",
            Opcode::Fdiv => "fdiv",
            Opcode::Ddiv => "ddiv",
            Opcode::Irem => "irem",
            Opcode::Lrem => "lrem",
            Opcode::Frem => "frem",
            Opcode::Drem => "drem",
            Opcode::Ineg => "ineg",
            Opcode::Lneg => "lneg",
            Opcode::Fneg => "fneg",
            Opcode::Dneg => "dneg",
            Opcode::Ishl => "ishl",
            Opcode::Lshl => "lshl",
            Opcode::Ishr => "ishr",
            Opcode::Lshr => "lshr",
            Opcode::Iushr => "iushr",
            Opcode::Lushr => "lushr",
            Opcode::Iand => "iand",
            Opcode::Land => "land",
            Opcode::Ior => "ior",
            Opcode::Lor => "lor",
            Opcode::Ixor => "ixor",
            Opcode::Lxor => "lxor",
            Opcode::Iinc => "iinc",
            Opcode::I2l => "i2l",
            Opcode::I2f => "i2f",
            Opcode::I2d => "i2d",
            Opcode::L2i => "l2i",
            Opcode::L2f => "l2f",
            Opcode::L2d => "l2d",
            Opcode::F2i => "f2i",
            Opcode::F2l => "f2l",
            Opcode::F2d => "f2d",
            Opcode::D2i => "d2i",
            Opcode::D2l => "d2l",
            Opcode::D2f => "d2f",
            Opcode::I2b => "i2b",
            Opcode::I2c => "i2c",
            Opcode::I2s => "i2s",
            Opcode::Lcmp => "lcmp",
            Opcode::Fcmpl => "fcmpl",
            Opcode::Fcmpg => "fcmpg",
            Opcode::Dcmpl => "dcmpl",
            Opcode::Dcmpg => "dcmpg",
            Opcode::Ifeq => "ifeq",
            Opcode::Ifne => "ifne",
            Opcode::Iflt => "iflt",
            Opcode::Ifge => "ifge",
            Opcode::Ifgt => "ifgt",
            Opcode::Ifle => "ifle",
            Opcode::IfIcmpeq => "if_icmpeq",
            Opcode::IfIcmpne => "if_icmpne",
            Opcode::IfIcmplt => "if_icmplt",
            Opcode::IfIcmpge => "if_icmpge",
            Opcode::IfIcmpgt => "if_icmpgt",
            Opcode::IfIcmple => "if_icmple",
            Opcode::IfAcmpeq => "if_acmpeq",
            Opcode::IfAcmpne => "if_acmpne",
            Opcode::Goto => "goto",
            Opcode::Jsr => "jsr",
            Opcode::Ret => "ret",
            Opcode::Tableswitch => "tableswitch",
            Opcode::Lookupswitch => "lookupswitch",
            Opcode::Ireturn => "ireturn",
            Opcode::Lreturn => "lreturn",
            Opcode::Freturn => "freturn",
            Opcode::Dreturn => "dreturn",
            Opcode::Areturn => "areturn",
            Opcode::Return => "return",
            Opcode::Getstatic => "getstatic",
            Opcode::Putstatic => "putstatic",
            Opcode::Getfield => "getfield",
            Opcode::Putfield => "putfield",
            Opcode::Invokevirtual => "invokevirtual",
            Opcode::Invokespecial => "invokespecial",
            Opcode::Invokestatic => "invokestatic",
            Opcode::Invokeinterface => "invokeinterface",
            Opcode::Invokedynamic => "invokedynamic",
            Opcode::New => "new",
            Opcode::Newarray => "newarray",
            Opcode::Anewarray => "anewarray",
            Opcode::Arraylength => "arraylength",
            Opcode::Athrow => "athrow",
            Opcode::Checkcast => "checkcast",
            Opcode::Instanceof => "instanceof",
            Opcode::Monitorenter => "monitorenter",
            Opcode::Monitorexit => "monitorexit",
            Opcode::Wide => "wide",
            Opcode::Multianewarray => "multianewarray",
            Opcode::Ifnull => "ifnull",
            Opcode::Ifnonnull => "ifnonnull",
            Opcode::GotoW => "goto_w",
            Opcode::JsrW => "jsr_w",
            Opcode::Breakpoint => "breakpoint",
            Opcode::Impdep1 => "impdep1",
            Opcode::Impdep2 => "impdep2",
        }
    }
}

/// Whether some opcode is written as `byte`.
pub open spec fn is_opcode_byte(byte: u8) -> bool {
    byte <= 0xca || byte >= 0xfe
}

/// Two opcodes that are written as the same byte are the same opcode.
pub proof fn lemma_opcode_byte_injective(a: Opcode, b: Opcode)
    requires
        a.byte() == b.byte(),
    ensures
        a == b,
{
}

/// The opcode that is written as `byte`, if there is one.
pub open spec fn spec_get_opcode(byte: u8) -> Option<Opcode> {
    if is_opcode_byte(byte) {
        Some(choose|opcode: Opcode| opcode.byte() == byte)
    } else {
        None
    }
}

/// Every byte that stands for an opcode is the byte of some opcode.
pub proof fn lemma_opcode_exists(byte: u8)
    requires
        is_opcode_byte(byte),
    ensures
        exists|opcode: Opcode| opcode.byte() == byte,
{
    match byte {
        0x00 => { assert(Opcode::Nop.byte() == byte); },
        0x01 => { assert(Opcode::AconstNull.byte() == byte); },
        0x02 => { assert(Opcode::IconstM1.byte() == byte); },
        0x03 => { assert(Opcode::Iconst0.byte() == byte); },
        0x04 => { assert(Opcode::Iconst1.byte() == byte); },
        0x05 => { assert(Opcode::Iconst2.byte() == byte); },
        0x06 => { assert(Opcode::Iconst3.byte() == byte); },
        0x07 => { assert(Opcode::Iconst4.byte() == byte); },
        0x08 => { assert(Opcode::Iconst5.byte() == byte); },
        0x09 => { assert(Opcode::Lconst0.byte() == byte); },
        0x0a => { assert(Opcode::Lconst1.byte() == byte); },
        0x0b => { assert(Opcode::Fconst0.byte() == byte); },
        0x0c => { assert(Opcode::Fconst1.byte() == byte); },
        0x0d => { assert(Opcode::Fconst2.byte() == byte); },
        0x0e => { assert(Opcode::Dconst0.byte() == byte); },
        0x0f => { assert(Opcode::Dconst1.byte() == byte); },
        0x10 => { assert(Opcode::Bipush.byte() == byte); },
        0x11 => { assert(Opcode::Sipush.byte() == byte); },
        0x12 => { assert(Opcode::Ldc.byte() == byte); },
        0x13 => { assert(Opcode::LdcW.byte() == byte); },
        0x14 => { assert(Opcode::Ldc2W.byte() == byte); },
        0x15 => { assert(Opcode::Iload.byte() == byte); },
        0x16 => { assert(Opcode::Lload.byte() == byte); },
        0x17 => { assert(Opcode::Fload.byte() == byte); },
        0x18 => { assert(Opcode::Dload.byte() == byte); },
        0x19 => { assert(Opcode::Aload.byte() == byte); },
        0x1a => { assert(Opcode::Iload0.byte() == byte); },
        0x1b => { assert(Opcode::Iload1.byte() == byte); },
        0x1c => { assert(Opcode::Iload2.byte() == byte); },
        0x1d => { assert(Opcode::Iload3.byte() == byte); },
        0x1e => { assert(Opcode::Lload0.byte() == byte); },
        0x1f => { assert(Opcode::Lload1.byte() == byte); },
        0x20 => { assert(Opcode::Lload2.byte() == byte); },
        0x21 => { assert(Opcode::Lload3.byte() == byte); },
        0x22 => { assert(Opcode::Fload0.byte() == byte); },
        0x23 => { assert(Opcode::Fload1.byte() == byte); },
        0x24 => { assert(Opcode::Fload2.byte() == byte); },
        0x25 => { assert(Opcode::Fload3.byte() == byte); },
        0x26 => { assert(Opcode::Dload0.byte() == byte); },
        0x27 => { assert(Opcode::Dload1.byte() == byte); },
        0x28 => { assert(Opcode::Dload2.byte() == byte); },
        0x29 => { assert(Opcode::Dload3.byte() == byte); },
        0x2a => { assert(Opcode::Aload0.byte() == byte); },
        0x2b => { assert(Opcode::Aload1.byte() == byte); },
        0x2c => { assert(Opcode::Aload2.byte() == byte); },
        0x2d => { assert(Opcode::Aload3.byte() == byte); },
        0x2e => { assert(Opcode::Iaload.byte() == byte); },
        0x2f => { assert(Opcode::Laload.byte() == byte); },
        0x30 => { assert(Opcode::Faload.byte() == byte); },
        0x31 => { assert(Opcode::Daload.byte() == byte); },
        0x32 => { assert(Opcode::Aaload.byte() == byte); },
        0x33 => { assert(Opcode::Baload.byte() == byte); },
        0x34 => { assert(Opcode::Caload.byte() == byte); },
        0x35 => { assert(Opcode::Saload.byte() == byte); },
        0x36 => { assert(Opcode::Istore.byte() == byte); },
        0x37 => { assert(Opcode::Lstore.byte() == byte); },
        0x38 => { assert(Opcode::Fstore.byte() == byte); },
        0x39 => { assert(Opcode::Dstore.byte() == byte); },
        0x3a => { assert(Opcode::Astore.byte() == byte); },
        0x3b => { assert(Opcode::Istore0.byte() == byte); },
        0x3c => { assert(Opcode::Istore1.byte() == byte); },
        0x3d => { assert(Opcode::Istore2.byte() == byte); },
        0x3e => { assert(Opcode::Istore3.byte() == byte); },
        0x3f => { assert(Opcode::Lstore0.byte() == byte); },
        0x40 => { assert(Opcode::Lstore1.byte() == byte); },
        0x41 => { assert(Opcode::Lstore2.byte() == byte); },
        0x42 => { assert(Opcode::Lstore3.byte() == byte); },
        0x43 => { assert(Opcode::Fstore0.byte() == byte); },
        0x44 => { assert(Opcode::Fstore1.byte() == byte); },
        0x45 => { assert(Opcode::Fstore2.byte() == byte); },
        0x46 => { assert(Opcode::Fstore3.byte() == byte); },
        0x47 => { assert(Opcode::Dstore0.byte() == byte); },
        0x48 => { assert(Opcode::Dstore1.byte() == byte); },
        0x49 => { assert(Opcode::Dstore2.byte() == byte); },
        0x4a => { assert(Opcode::Dstore3.byte() == byte); },
        0x4b => { assert(Opcode::Astore0.byte() == byte); },
        0x4c => { assert(Opcode::Astore1.byte() == byte); },
        0x4d => { assert(Opcode::Astore2.byte() == byte); },
        0x4e => { assert(Opcode::Astore3.byte() == byte); },
        0x4f => { assert(Opcode::Iastore.byte() == byte); },
        0x50 => { assert(Opcode::Lastore.byte() == byte); },
        0x51 => { assert(Opcode::Fastore.byte() == byte); },
        0x52 => { assert(Opcode::Dastore.byte() == byte); },
        0x53 => { assert(Opcode::Aastore.byte() == byte); },
        0x54 => { assert(Opcode::Bastore.byte() == byte); },
        0x55 => { assert(Opcode::Castore.byte() == byte); },
        0x56 => { assert(Opcode::Sastore.byte() == byte); },
        0x57 => { assert(Opcode::Pop.byte() == byte); },
        0x58 => { assert(Opcode::Pop2.byte() == byte); },
        0x59 => { assert(Opcode::Dup.byte() == byte); },
        0x5a => { assert(Opcode::DupX1.byte() == byte); },
        0x5b => { assert(Opcode::DupX2.byte() == byte); },
        0x5c => { assert(Opcode::Dup2.byte() == byte); },
        0x5d => { assert(Opcode::Dup2X1.byte() == byte); },
        0x5e => { assert(Opcode::Dup2X2.byte() == byte); },
        0x5f => { assert(Opcode::Swap.byte() == byte); },
        0x60 => { assert(Opcode::Iadd.byte() == byte); },
        0x61 => { assert(Opcode::Ladd.byte() == byte); },
        0x62 => { assert(Opcode::Fadd.byte() == byte); },
        0x63 => { assert(Opcode::Dadd.byte() == byte); },
        0x64 => { assert(Opcode::Isub.byte() == byte); },
        0x65 => { assert(Opcode::Lsub.byte() == byte); },
        0x66 => { assert(Opcode::Fsub.byte() == byte); },
        0x67 => { assert(Opcode::Dsub.byte() == byte); },
        0x68 => { assert(Opcode::Imul.byte() == byte); },
        0x69 => { assert(Opcode::Lmul.byte() == byte); },
        0x6a => { assert(Opcode::Fmul.byte() == byte); },
        0x6b => { assert(Opcode::Dmul.byte() == byte); },
        0x6c => { assert(Opcode::Idiv.byte() == byte); },
        0x6d => { assert(Opcode::Ldiv.byte() == byte); },
        0x6e => { assert(Opcode::Fdiv.byte() == byte); },
        0x6f => { assert(Opcode::Ddiv.byte() == byte); },
        0x70 => { assert(Opcode::Irem.byte() == byte); },
        0x71 => { assert(Opcode::Lrem.byte() == byte); },
        0x72 => { assert(Opcode::Frem.byte() == byte); },
        0x73 => { assert(Opcode::Drem.byte() == byte); },
        0x74 => { assert(Opcode::Ineg.byte() == byte); },
        0x75 => { assert(Opcode::Lneg.byte() == byte); },
        0x76 => { assert(Opcode::Fneg.byte() == byte); },
        0x77 => { assert(Opcode::Dneg.byte() == byte); },
        0x78 => { assert(Opcode::Ishl.byte() == byte); },
        0x79 => { assert(Opcode::Lshl.byte() == byte); },
        0x7a => { assert(Opcode::Ishr.byte() == byte); },
        0x7b => { assert(Opcode::Lshr.byte() == byte); },
        0x7c => { assert(Opcode::Iushr.byte() == byte); },
        0x7d => { assert(Opcode::Lushr.byte() == byte); },
        0x7e => { assert(Opcode::Iand.byte() == byte); },
        0x7f => { assert(Opcode::Land.byte() == byte); },
        0x80 => { assert(Opcode::Ior.byte() == byte); },
        0x81 => { assert(Opcode::Lor.byte() == byte); },
        0x82 => { assert(Opcode::Ixor.byte() == byte); },
        0x83 => { assert(Opcode::Lxor.byte() == byte); },
        0x84 => { assert(Opcode::Iinc.byte() == byte); },
        0x85 => { assert(Opcode::I2l.byte() == byte); },
        0x86 => { assert(Opcode::I2f.byte() == byte); },
        0x87 => { assert(Opcode::I2d.byte() == byte); },
        0x88 => { assert(Opcode::L2i.byte() == byte); },
        0x89 => { assert(Opcode::L2f.byte() == byte); },
        0x8a => { assert(Opcode::L2d.byte() == byte); },
        0x8b => { assert(Opcode::F2i.byte() == byte); },
        0x8c => { assert(Opcode::F2l.byte() == byte); },
        0x8d => { assert(Opcode::F2d.byte() == byte); },
        0x8e => { assert(Opcode::D2i.byte() == byte); },
        0x8f => { assert(Opcode::D2l.byte() == byte); },
        0x90 => { assert(Opcode::D2f.byte() == byte); },
        0x91 => { assert(Opcode::I2b.byte() == byte); },
        0x92 => { assert(Opcode::I2c.byte() == byte); },
        0x93 => { assert(Opcode::I2s.byte() == byte); },
        0x94 => { assert(Opcode::Lcmp.byte() == byte); },
        0x95 => { assert(Opcode::Fcmpl.byte() == byte); },
        0x96 => { assert(Opcode::Fcmpg.byte() == byte); },
        0x97 => { assert(Opcode::Dcmpl.byte() == byte); },
        0x98 => { assert(Opcode::Dcmpg.byte() == byte); },
        0x99 => { assert(Opcode::Ifeq.byte() == byte); },
        0x9a => { assert(Opcode::Ifne.byte() == byte); },
        0x9b => { assert(Opcode::Iflt.byte() == byte); },
        0x9c => { assert(Opcode::Ifge.byte() == byte); },
        0x9d => { assert(Opcode::Ifgt.byte() == byte); },
        0x9e => { assert(Opcode::Ifle.byte() == byte); },
        0x9f => { assert(Opcode::IfIcmpeq.byte() == byte); },
        0xa0 => { assert(Opcode::IfIcmpne.byte() == byte); },
        0xa1 => { assert(Opcode::IfIcmplt.byte() == byte); },
        0xa2 => { assert(Opcode::IfIcmpge.byte() == byte); },
        0xa3 => { assert(Opcode::IfIcmpgt.byte() == byte); },
        0xa4 => { assert(Opcode::IfIcmple.byte() == byte); },
        0xa5 => { assert(Opcode::IfAcmpeq.byte() == byte); },
        0xa6 => { assert(Opcode::IfAcmpne.byte() == byte); },
        0xa7 => { assert(Opcode::Goto.byte() == byte); },
        0xa8 => { assert(Opcode::Jsr.byte() == byte); },
        0xa9 => { assert(Opcode::Ret.byte() == byte); },
        0xaa => { assert(Opcode::Tableswitch.byte() == byte); },
        0xab => { assert(Opcode::Lookupswitch.byte() == byte); },
        0xac => { assert(Opcode::Ireturn.byte() == byte); },
        0xad => { assert(Opcode::Lreturn.byte() == byte); },
        0xae => { assert(Opcode::Freturn.byte() == byte); },
        0xaf => { assert(Opcode::Dreturn.byte() == byte); },
        0xb0 => { assert(Opcode::Areturn.byte() == byte); },
        0xb1 => { assert(Opcode::Return.byte() == byte); },
        0xb2 => { assert(Opcode::Getstatic.byte() == byte); },
        0xb3 => { assert(Opcode::Putstatic.byte() == byte); },
        0xb4 => { assert(Opcode::Getfield.byte() == byte); },
        0xb5 => { assert(Opcode::Putfield.byte() == byte); },
        0xb6 => { assert(Opcode::Invokevirtual.byte() == byte); },
        0xb7 => { assert(Opcode::Invokespecial.byte() == byte); },
        0xb8 => { assert(Opcode::Invokestatic.byte() == byte); },
        0xb9 => { assert(Opcode::Invokeinterface.byte() == byte); },
        0xba => { assert(Opcode::Invokedynamic.byte() == byte); },
        0xbb => { assert(Opcode::New.byte() == byte); },
        0xbc => { assert(Opcode::Newarray.byte() == byte); },
        0xbd => { assert(Opcode::Anewarray.byte() == byte); },
        0xbe => { assert(Opcode::Arraylength.byte() == byte); },
        0xbf => { assert(Opcode::Athrow.byte() == byte); },
        0xc0 => { assert(Opcode::Checkcast.byte() == byte); },
        0xc1 => { assert(Opcode::Instanceof.byte() == byte); },
        0xc2 => { assert(Opcode::Monitorenter.byte() == byte); },
        0xc3 => { assert(Opcode::Monitorexit.byte() == byte); },
        0xc4 => { assert(Opcode::Wide.byte() == byte); },
        0xc5 => { assert(Opcode::Multianewarray.byte() == byte); },
        0xc6 => { assert(Opcode::Ifnull.byte() == byte); },
        0xc7 => { assert(Opcode::Ifnonnull.byte() == byte); },
        0xc8 => { assert(Opcode::GotoW.byte() == byte); },
        0xc9 => { assert(Opcode::JsrW.byte() == byte); },
        0xca => { assert(Opcode::Breakpoint.byte() == byte); },
        0xfe => { assert(Opcode::Impdep1.byte() == byte); },
        0xff => { assert(Opcode::Impdep2.byte() == byte); },
        _ => {},
    }
}

/// The opcode that is written as a byte is written as that byte, and is
/// the only one.
pub proof fn lemma_opcode_chosen(byte: u8)
    requires
        is_opcode_byte(byte),
    ensures
        spec_get_opcode(byte) is Some,
        spec_get_opcode(byte)->0.byte() == byte,
        forall|opcode: Opcode| opcode.byte() == byte ==> spec_get_opcode(byte) == Some(opcode),
{
    lemma_opcode_exists(byte);
    let chosen = choose|opcode: Opcode| opcode.byte() == byte;
    assert forall|opcode: Opcode| opcode.byte() == byte implies spec_get_opcode(byte) == Some(
        opcode,
    ) by {
        lemma_opcode_byte_injective(chosen, opcode);
    }
}

/// The opcode that `byte` stands for, if it stands for one.
pub fn get_opcode(byte: u8) -> (opcode: Option<Opcode>)
    ensures
        opcode is Some <==> is_opcode_byte(byte),
        opcode is Some ==> opcode->0.byte() == byte,
        opcode == spec_get_opcode(byte),
{
    proof {
        if is_opcode_byte(byte) {
            lemma_opcode_chosen(byte);
        }
    }
    match byte {
        0x00 => Some(Opcode::Nop),
        0x01 => Some(Opcode::AconstNull),
        0x02 => Some(Opcode::IconstM1),
        0x03 => Some(Opcode::Iconst0),
        0x04 => Some(Opcode::Iconst1),
        0x05 => Some(Opcode::Iconst2),
        0x06 => Some(Opcode::Iconst3),
        0x07 => Some(Opcode::Iconst4),
        0x08 => Some(Opcode::Iconst5),
        0x09 => Some(Opcode::Lconst0),
        0x0a => Some(Opcode::Lconst1),
        0x0b => Some(Opcode::Fconst0),
        0x0c => Some(Opcode::Fconst1),
        0x0d => Some(Opcode::Fconst2),
        0x0e => Some(Opcode::Dconst0),
        0x0f => Some(Opcode::Dconst1),
        0x10 => Some(Opcode::Bipush),
        0x11 => Some(Opcode::Sipush),
        0x12 => Some(Opcode::Ldc),
        0x13 => Some(Opcode::LdcW),
        0x14 => Some(Opcode::Ldc2W),
        0x15 => Some(Opcode::Iload),
        0x16 => Some(Opcode::Lload),
        0x17 => Some(Opcode::Fload),
        0x18 => Some(Opcode::Dload),
        0x19 => Some(Opcode::Aload),
        0x1a => Some(Opcode::Iload0),
        0x1b => Some(Opcode::Iload1),
        0x1c => Some(Opcode::Iload2),
        0x1d => Some(Opcode::Iload3),
        0x1e => Some(Opcode::Lload0),
        0x1f => Some(Opcode::Lload1),
        0x20 => Some(Opcode::Lload2),
        0x21 => Some(Opcode::Lload3),
        0x22 => Some(Opcode::Fload0),
        0x23 => Some(Opcode::Fload1),
        0x24 => Some(Opcode::Fload2),
        0x25 => Some(Opcode::Fload3),
        0x26 => Some(Opcode::Dload0),
        0x27 => Some(Opcode::Dload1),
        0x28 => Some(Opcode::Dload2),
        0x29 => Some(Opcode::Dload3),
        0x2a => Some(Opcode::Aload0),
        0x2b => Some(Opcode::Aload1),
        0x2c => Some(Opcode::Aload2),
        0x2d => Some(Opcode::Aload3),
        0x2e => Some(Opcode::Iaload),
        0x2f => Some(Opcode::Laload),
        0x30 => Some(Opcode::Faload),
        0x31 => Some(Opcode::Daload),
        0x32 => Some(Opcode::Aaload),
        0x33 => Some(Opcode::Baload),
        0x34 => Some(Opcode::Caload),
        0x35 => Some(Opcode::Saload),
        0x36 => Some(Opcode::Istore),
        0x37 => Some(Opcode::Lstore),
        0x38 => Some(Opcode::Fstore),
        0x39 => Some(Opcode::Dstore),
        0x3a => Some(Opcode::Astore),
        0x3b => Some(Opcode::Istore0),
        0x3c => Some(Opcode::Istore1),
        0x3d => Some(Opcode::Istore2),
        0x3e => Some(Opcode::Istore3),
        0x3f => Some(Opcode::Lstore0),
        0x40 => Some(Opcode::Lstore1),
        0x41 => Some(Opcode::Lstore2),
        0x42 => Some(Opcode::Lstore3),
        0x43 => Some(Opcode::Fstore0),
        0x44 => Some(Opcode::Fstore1),
        0x45 => Some(Opcode::Fstore2),
        0x46 => Some(Opcode::Fstore3),
        0x47 => Some(Opcode::Dstore0),
        0x48 => Some(Opcode::Dstore1),
        0x49 => Some(Opcode::Dstore2),
        0x4a => Some(Opcode::Dstore3),
        0x4b => Some(Opcode::Astore0),
        0x4c => Some(Opcode::Astore1),
        0x4d => Some(Opcode::Astore2),
        0x4e => Some(Opcode::Astore3),
        0x4f => Some(Opcode::Iastore),
        0x50 => Some(Opcode::Lastore),
        0x51 => Some(Opcode::Fastore),
        0x52 => Some(Opcode::Dastore),
        0x53 => Some(Opcode::Aastore),
        0x54 => Some(Opcode::Bastore),
        0x55 => Some(Opcode::Castore),
        0x56 => Some(Opcode::Sastore),
        0x57 => Some(Opcode::Pop),
        0x58 => Some(Opcode::Pop2),
        0x59 => Some(Opcode::Dup),
        0x5a => Some(Opcode::DupX1),
        0x5b => Some(Opcode::DupX2),
        0x5c => Some(Opcode::Dup2),
        0x5d => Some(Opcode::Dup2X1),
        0x5e => Some(Opcode::Dup2X2),
        0x5f => Some(Opcode::Swap),
        0x60 => Some(Opcode::Iadd),
        0x61 => Some(Opcode::Ladd),
        0x62 => Some(Opcode::Fadd),
        0x63 => Some(Opcode::Dadd),
        0x64 => Some(Opcode::Isub),
        0x65 => Some(Opcode::Lsub),
        0x66 => Some(Opcode::Fsub),
        0x67 => Some(Opcode::Dsub),
        0x68 => Some(Opcode::Imul),
        0x69 => Some(Opcode::Lmul),
        0x6a => Some(Opcode::Fmul),
        0x6b => Some(Opcode::Dmul),
        0x6c => Some(Opcode::Idiv),
        0x6d => Some(Opcode::Ldiv),
        0x6e => Some(Opcode::Fdiv),
        0x6f => Some(Opcode::Ddiv),
        0x70 => Some(Opcode::Irem),
        0x71 => Some(Opcode::Lrem),
        0x72 => Some(Opcode::Frem),
        0x73 => Some(Opcode::Drem),
        0x74 => Some(Opcode::Ineg),
        0x75 => Some(Opcode::Lneg),
        0x76 => Some(Opcode::Fneg),
        0x77 => Some(Opcode::Dneg),
        0x78 => Some(Opcode::Ishl),
        0x79 => Some(Opcode::Lshl),
        0x7a => Some(Opcode::Ishr),
        0x7b => Some(Opcode::Lshr),
        0x7c => Some(Opcode::Iushr),
        0x7d => Some(Opcode::Lushr),
        0x7e => Some(Opcode::Iand),
        0x7f => Some(Opcode::Land),
        0x80 => Some(Opcode::Ior),
        0x81 => Some(Opcode::Lor),
        0x82 => Some(Opcode::Ixor),
        0x83 => Some(Opcode::Lxor),
        0x84 => Some(Opcode::Iinc),
        0x85 => Some(Opcode::I2l),
        0x86 => Some(Opcode::I2f),
        0x87 => Some(Opcode::I2d),
        0x88 => Some(Opcode::L2i),
        0x89 => Some(Opcode::L2f),
        0x8a => Some(Opcode::L2d),
        0x8b => Some(Opcode::F2i),
        0x8c => Some(Opcode::F2l),
        0x8d => Some(Opcode::F2d),
        0x8e => Some(Opcode::D2i),
        0x8f => Some(Opcode::D2l),
        0x90 => Some(Opcode::D2f),
        0x91 => Some(Opcode::I2b),
        0x92 => Some(Opcode::I2c),
        0x93 => Some(Opcode::I2s),
        0x94 => Some(Opcode::Lcmp),
        0x95 => Some(Opcode::Fcmpl),
        0x96 => Some(Opcode::Fcmpg),
        0x97 => Some(Opcode::Dcmpl),
        0x98 => Some(Opcode::Dcmpg),
        0x99 => Some(Opcode::Ifeq),
        0x9a => Some(Opcode::Ifne),
        0x9b => Some(Opcode::Iflt),
        0x9c => Some(Opcode::Ifge),
        0x9d => Some(Opcode::Ifgt),
        0x9e => Some(Opcode::Ifle),
        0x9f => Some(Opcode::IfIcmpeq),
        0xa0 => Some(Opcode::IfIcmpne),
        0xa1 => Some(Opcode::IfIcmplt),
        0xa2 => Some(Opcode::IfIcmpge),
        0xa3 => Some(Opcode::IfIcmpgt),
        0xa4 => Some(Opcode::IfIcmple),
        0xa5 => Some(Opcode::IfAcmpeq),
        0xa6 => Some(Opcode::IfAcmpne),
        0xa7 => Some(Opcode::Goto),
        0xa8 => Some(Opcode::Jsr),
        0xa9 => Some(Opcode::Ret),
        0xaa => Some(Opcode::Tableswitch),
        0xab => Some(Opcode::Lookupswitch),
        0xac => Some(Opcode::Ireturn),
        0xad => Some(Opcode::Lreturn),
        0xae => Some(Opcode::Freturn),
        0xaf => Some(Opcode::Dreturn),
        0xb0 => Some(Opcode::Areturn),
        0xb1 => Some(Opcode::Return),
        0xb2 => Some(Opcode::Getstatic),
        0xb3 => Some(Opcode::Putstatic),
        0xb4 => Some(Opcode::Getfield),
        0xb5 => Some(Opcode::Putfield),
        0xb6 => Some(Opcode::Invokevirtual),
        0xb7 => Some(Opcode::Invokespecial),
        0xb8 => Some(Opcode::Invokestatic),
        0xb9 => Some(Opcode::Invokeinterface),
        0xba => Some(Opcode::Invokedynamic),
        0xbb => Some(Opcode::New),
        0xbc => Some(Opcode::Newarray),
        0xbd => Some(Opcode::Anewarray),
        0xbe => Some(Opcode::Arraylength),
        0xbf => Some(Opcode::Athrow),
        0xc0 => Some(Opcode::Checkcast),
        0xc1 => Some(Opcode::Instanceof),
        0xc2 => Some(Opcode::Monitorenter),
        0xc3 => Some(Opcode::Monitorexit),
        0xc4 => Some(Opcode::Wide),
        0xc5 => Some(Opcode::Multianewarray),
        0xc6 => Some(Opcode::Ifnull),
        0xc7 => Some(Opcode::Ifnonnull),
        0xc8 => Some(Opcode::GotoW),
        0xc9 => Some(Opcode::JsrW),
        0xca => Some(Opcode::Breakpoint),
        0xfe => Some(Opcode::Impdep1),
        0xff => Some(Opcode::Impdep2),
        _ => None,
    }
}

} // verus!
