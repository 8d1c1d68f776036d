//! The access flags of classes and methods.

use vstd::prelude::*;

verus! {

/// An access flag of a class, in the order in which a listing shows them.
#[derive(Clone, Copy, Debug, PartialOrd, Ord, PartialEq, Eq, Structural)]
pub enum ClassAccessFlag {
    AccPublic,
    AccFinal,
    AccSuper,
    AccInterface,
    AccAbstract,
    AccSynthetic,
    AccAnnotation,
    AccEnum,
    AccModule,
}

impl ClassAccessFlag {
    /// Every flag, in the order of declaration.
    pub open spec fn all() -> Seq<ClassAccessFlag> {
        seq![
            ClassAccessFlag::AccPublic,
            ClassAccessFlag::AccFinal,
            ClassAccessFlag::AccSuper,
            ClassAccessFlag::AccInterface,
            ClassAccessFlag::AccAbstract,
            ClassAccessFlag::AccSynthetic,
            ClassAccessFlag::AccAnnotation,
            ClassAccessFlag::AccEnum,
            ClassAccessFlag::AccModule,
        ]
    }

    /// The bit that stands for this flag in a flags word.
    pub open spec fn spec_mask(self) -> u16 {
        match self {
            ClassAccessFlag::AccPublic => 0x0001,
            ClassAccessFlag::AccFinal => 0x0010,
            ClassAccessFlag::AccSuper => 0x0020,
            ClassAccessFlag::AccInterface => 0x0200,
            ClassAccessFlag::AccAbstract => 0x0400,
            ClassAccessFlag::AccSynthetic => 0x1000,
            ClassAccessFlag::AccAnnotation => 0x2000,
            ClassAccessFlag::AccEnum => 0x4000,
            ClassAccessFlag::AccModule => 0x8000,
        }
    }

    /// Whether this flag's bit is set in `flags`.
    pub open spec fn is_set_in(self, flags: u16) -> bool {
        flags & self.spec_mask() != 0
    }

    /// The flags whose bit is set in `flags`, in the order of declaration.
    pub open spec fn flags_of(flags: u16) -> Seq<ClassAccessFlag> {
        Self::all().filter(|f: ClassAccessFlag| f.is_set_in(flags))
    }

    /// The flag's name in the class file format.
    pub open spec fn spec_str(self) -> Seq<char> {
        match self {
            ClassAccessFlag::AccPublic => "ACC_PUBLIC"@,
            ClassAccessFlag::AccFinal => "ACC_FINAL"@,
            ClassAccessFlag::AccSuper => "ACC_SUPER"@,
            ClassAccessFlag::AccInterface => "ACC_INTERFACE"@,
            ClassAccessFlag::AccAbstract => "ACC_ABSTRACT"@,
            ClassAccessFlag::AccSynthetic => "ACC_SYNTHETIC"@,
            ClassAccessFlag::AccAnnotation => "ACC_ANNOTATION"@,
            ClassAccessFlag::AccEnum => "ACC_ENUM"@,
            ClassAccessFlag::AccModule => "ACC_MODULE"@,
        }
    }

    /// The flag's keyword in source code.
    pub open spec fn spec_java_code(self) -> Seq<char> {
        match self {
            ClassAccessFlag::AccPublic => "public"@,
            ClassAccessFlag::AccFinal => "final"@,
            ClassAccessFlag::AccSuper => "super"@,
            ClassAccessFlag::AccInterface => "interface"@,
            ClassAccessFlag::AccAbstract => "abstract"@,
            ClassAccessFlag::AccSynthetic => "synthetic"@,
            ClassAccessFlag::AccAnnotation => "annotation"@,
            ClassAccessFlag::AccEnum => "enum"@,
            ClassAccessFlag::AccModule => "module"@,
        }
    }

    /// The bit that stands for this flag in a flags word.
    pub fn mask(&self) -> (m: u16)
        ensures
            m == self.spec_mask(),
    {
        match self {
            ClassAccessFlag::AccPublic => 0x0001,
            ClassAccessFlag::AccFinal => 0x0010,
            ClassAccessFlag::AccSuper => 0x0020,
            ClassAccessFlag::AccInterface => 0x0200,
            ClassAccessFlag::AccAbstract => 0x0400,
            ClassAccessFlag::AccSynthetic => 0x1000,
            ClassAccessFlag::AccAnnotation => 0x2000,
            ClassAccessFlag::AccEnum => 0x4000,
            ClassAccessFlag::AccModule => 0x8000,
        }
    }

    /// The flag's name in the class file format.
    pub fn to_str(&self) -> (name: &'static str)
        ensures
            name@ == self.spec_str(),
    {
        match self {
            ClassAccessFlag::AccPublic => "ACC_PUBLIC",
            ClassAccessFlag::AccFinal => "ACC_FINAL",
            ClassAccessFlag::AccSuper => "ACC_SUPER",
            ClassAccessFlag::AccInterface => "ACC_INTERFACE",
            ClassAccessFlag::AccAbstract => "ACC_ABSTRACT",
            ClassAccessFlag::AccSynthetic => "ACC_SYNTHETIC",
            ClassAccessFlag::AccAnnotation => "ACC_ANNOTATION",
            ClassAccessFlag::AccEnum => "ACC_ENUM",
            ClassAccessFlag::AccModule => "ACC_MODULE",
        }
    }

    /// The flag's keyword in source code.
    pub fn to_java_code(&self) -> (keyword: &'static str)
        ensures
            keyword@ == self.spec_java_code(),
    {
        match self {
            ClassAccessFlag::AccPublic => "public",
            ClassAccessFlag::AccFinal => "final",
            ClassAccessFlag::AccSuper => "super",
            ClassAccessFlag::AccInterface => "interface",
            ClassAccessFlag::AccAbstract => "abstract",
            ClassAccessFlag::AccSynthetic => "synthetic",
            ClassAccessFlag::AccAnnotation => "annotation",
            ClassAccessFlag::AccEnum => "enum",
            ClassAccessFlag::AccModule => "module",
        }
    }

    /// Every flag, in the order of declaration.
    pub fn table() -> (flags: Vec<ClassAccessFlag>)
        ensures
            flags@ == Self::all(),
    {
        let flags = vec![
            ClassAccessFlag::AccPublic,
            ClassAccessFlag::AccFinal,
            ClassAccessFlag::AccSuper,
            ClassAccessFlag::AccInterface,
            ClassAccessFlag::AccAbstract,
            ClassAccessFlag::AccSynthetic,
            ClassAccessFlag::AccAnnotation,
            ClassAccessFlag::AccEnum,
            ClassAccessFlag::AccModule,
        ];
        assert(flags@ =~= Self::all());
        flags
    }

    /// The flags whose bit is set in `flags`, in the order of declaration.
    pub fn parse_flags(flags: u16) -> (set: Vec<ClassAccessFlag>)
        ensures
            set@ == Self::flags_of(flags),
    {
        let table = Self::table();
        let ghost chosen = |f: ClassAccessFlag| f.is_set_in(flags);
        let mut set: Vec<ClassAccessFlag> = Vec::new();
        let mut i: usize = 0;
        proof {
            reveal(Seq::filter);
            assert(table@.take(0) =~= Seq::empty());
        }
        while i < table.len()
            invariant
                i <= table.len(),
                table@ == Self::all(),
                chosen == |f: ClassAccessFlag| f.is_set_in(flags),
                set@ == table@.take(i as int).filter(chosen),
            decreases table.len() - i,
        {
            proof {
                reveal(Seq::filter);
                assert(table@.take(i + 1).drop_last() =~= table@.take(i as int));
            }
            if flags & table[i].mask() != 0 {
                set.push(table[i]);
            }
            i += 1;
        }
        assert(table@.take(table.len() as int) =~= table@);
        set
    }
}

/// An access flag of a method, in the order in which a listing shows them.
#[derive(Clone, Copy, Debug, PartialOrd, Ord, PartialEq, Eq, Structural)]
pub enum MethodAccessFlag {
    AccPublic,
    AccPrivate,
    AccProtected,
    AccStatic,
    AccFinal,
    AccSynchronized,
    AccBridge,
    AccVarargs,
    AccNative,
    AccAbstract,
    AccStrict,
    AccSynthetic,
}

impl MethodAccessFlag {
    /// Every flag, in the order of declaration.
    pub open spec fn all() -> Seq<MethodAccessFlag> {
        seq![
            MethodAccessFlag::AccPublic,
            MethodAccessFlag::AccPrivate,
            MethodAccessFlag::AccProtected,
            MethodAccessFlag::AccStatic,
            MethodAccessFlag::AccFinal,
            MethodAccessFlag::AccSynchronized,
            MethodAccessFlag::AccBridge,
            MethodAccessFlag::AccVarargs,
            MethodAccessFlag::AccNative,
            MethodAccessFlag::AccAbstract,
            MethodAccessFlag::AccStrict,
            MethodAccessFlag::AccSynthetic,
        ]
    }

    /// The bit that stands for this flag in a flags word.
    pub open spec fn spec_mask(self) -> u16 {
        match self {
            MethodAccessFlag::AccPublic => 0x0001,
            MethodAccessFlag::AccPrivate => 0x0002,
            MethodAccessFlag::AccProtected => 0x0004,
            MethodAccessFlag::AccStatic => 0x0008,
            MethodAccessFlag::AccFinal => 0x0010,
            MethodAccessFlag::AccSynchronized => 0x0020,
            MethodAccessFlag::AccBridge => 0x0040,
            MethodAccessFlag::AccVarargs => 0x0080,
            MethodAccessFlag::AccNative => 0x0100,
            MethodAccessFlag::AccAbstract => 0x0400,
            MethodAccessFlag::AccStrict => 0x0800,
            MethodAccessFlag::AccSynthetic => 0x1000,
        }
    }

    /// Whether this flag's bit is set in `flags`.
    pub open spec fn is_set_in(self, flags: u16) -> bool {
        flags & self.spec_mask() != 0
    }

    /// The flags whose bit is set in `flags`, in the order of declaration.
    pub open spec fn flags_of(flags: u16) -> Seq<MethodAccessFlag> {
        Self::all().filter(|f: MethodAccessFlag| f.is_set_in(flags))
    }

    /// The flag's name in the class file format.
    pub open spec fn spec_str(self) -> Seq<char> {
        match self {
            MethodAccessFlag::AccPublic => "ACC_PUBLIC"@,
            MethodAccessFlag::AccPrivate => "ACC_PRIVATE"@,
            MethodAccessFlag::AccProtected => "ACC_PROTECTED"@,
            MethodAccessFlag::AccStatic => "ACC_STATIC"@,
            MethodAccessFlag::AccFinal => "ACC_FINAL"@,
            MethodAccessFlag::AccSynchronized => "ACC_SYNCHRONIZED"@,
            MethodAccessFlag::AccBridge => "ACC_BRIDGE"@,
            MethodAccessFlag::AccVarargs => "ACC_VARARGS"@,
            MethodAccessFlag::AccNative => "ACC_NATIVE"@,
            MethodAccessFlag::AccAbstract => "ACC_ABSTRACT"@,
            MethodAccessFlag::AccStrict => "ACC_STRICT"@,
            MethodAccessFlag::AccSynthetic => "ACC_SYNTHETIC"@,
        }
    }

    /// The flag's keyword in source code.
    pub open spec fn spec_java_code(self) -> Seq<char> {
        match self {
            MethodAccessFlag::AccPublic => "public"@,
            MethodAccessFlag::AccPrivate => "private"@,
            MethodAccessFlag::AccProtected => "protected"@,
            MethodAccessFlag::AccStatic => "static"@,
            MethodAccessFlag::AccFinal => "final"@,
            MethodAccessFlag::AccSynchronized => "synchronized"@,
            MethodAccessFlag::AccBridge => "bridge"@,
            MethodAccessFlag::AccVarargs => "varargs"@,
            MethodAccessFlag::AccNative => "native"@,
            MethodAccessFlag::AccAbstract => "abstract"@,
            MethodAccessFlag::AccStrict => "strict"@,
            MethodAccessFlag::AccSynthetic => "synthetic"@,
        }
    }

    /// The bit that stands for this flag in a flags word.
    pub fn mask(&self) -> (m: u16)
        ensures
            m == self.spec_mask(),
    {
        match self {
            MethodAccessFlag::AccPublic => 0x0001,
            MethodAccessFlag::AccPrivate => 0x0002,
            MethodAccessFlag::AccProtected => 0x0004,
            MethodAccessFlag::AccStatic => 0x0008,
            MethodAccessFlag::AccFinal => 0x0010,
            MethodAccessFlag::AccSynchronized => 0x0020,
            MethodAccessFlag::AccBridge => 0x0040,
            MethodAccessFlag::AccVarargs => 0x0080,
            MethodAccessFlag::AccNative => 0x0100,
            MethodAccessFlag::AccAbstract => 0x0400,
            MethodAccessFlag::AccStrict => 0x0800,
            MethodAccessFlag::AccSynthetic => 0x1000,
        }
    }

    /// The flag's name in the class file format.
    pub fn to_str(&self) -> (name: &'static str)
        ensures
            name@ == self.spec_str(),
    {
        match self {
            MethodAccessFlag::AccPublic => "ACC_PUBLIC",
            MethodAccessFlag::AccPrivate => "ACC_PRIVATE",
            MethodAccessFlag::AccProtected => "ACC_PROTECTED",
            MethodAccessFlag::AccStatic => "ACC_STATIC",
            MethodAccessFlag::AccFinal => "ACC_FINAL",
            MethodAccessFlag::AccSynchronized => "ACC_SYNCHRONIZED",
            MethodAccessFlag::AccBridge => "ACC_BRIDGE",
            MethodAccessFlag::AccVarargs => "ACC_VARARGS",
            MethodAccessFlag::AccNative => "ACC_NATIVE",
            MethodAccessFlag::AccAbstract => "ACC_ABSTRACT",
            MethodAccessFlag::AccStrict => "ACC_STRICT",
            MethodAccessFlag::AccSynthetic => "ACC_SYNTHETIC",
        }
    }

    /// The flag's keyword in source code.
    pub fn to_java_code(&self) -> (keyword: &'static str)
        ensures
            keyword@ == self.spec_java_code(),
    {
        match self {
            MethodAccessFlag::AccPublic => "public",
            MethodAccessFlag::AccPrivate => "private",
            MethodAccessFlag::AccProtected => "protected",
            MethodAccessFlag::AccStatic => "static",
            MethodAccessFlag::AccFinal => "final",
            MethodAccessFlag::AccSynchronized => "synchronized",
            MethodAccessFlag::AccBridge => "bridge",
            MethodAccessFlag::AccVarargs => "varargs",
            MethodAccessFlag::AccNative => "native",
            MethodAccessFlag::AccAbstract => "abstract",
            MethodAccessFlag::AccStrict => "strict",
            MethodAccessFlag::AccSynthetic => "synthetic",
        }
    }

    /// Every flag, in the order of declaration.
    pub fn table() -> (flags: Vec<MethodAccessFlag>)
        ensures
            flags@ == Self::all(),
    {
        let flags = vec![
            MethodAccessFlag::AccPublic,
            MethodAccessFlag::AccPrivate,
            MethodAccessFlag::AccProtected,
            MethodAccessFlag::AccStatic,
            MethodAccessFlag::AccFinal,
            MethodAccessFlag::AccSynchronized,
            MethodAccessFlag::AccBridge,
            MethodAccessFlag::AccVarargs,
            MethodAccessFlag::AccNative,
            MethodAccessFlag::AccAbstract,
            MethodAccessFlag::AccStrict,
            MethodAccessFlag::AccSynthetic,
        ];
        assert(flags@ =~= Self::all());
        flags
    }

    /// The flags whose bit is set in `flags`, in the order of declaration.
    pub fn parse_flags(flags: u16) -> (set: Vec<MethodAccessFlag>)
        ensures
            set@ == Self::flags_of(flags),
    {
        let table = Self::table();
        let ghost chosen = |f: MethodAccessFlag| f.is_set_in(flags);
        let mut set: Vec<MethodAccessFlag> = Vec::new();
        let mut i: usize = 0;
        proof {
            reveal(Seq::filter);
            assert(table@.take(0) =~= Seq::empty());
        }
        while i < table.len()
            invariant
                i <= table.len(),
                table@ == Self::all(),
                chosen == |f: MethodAccessFlag| f.is_set_in(flags),
                set@ == table@.take(i as int).filter(chosen),
            decreases table.len() - i,
        {
            proof {
                reveal(Seq::filter);
                assert(table@.take(i + 1).drop_last() =~= table@.take(i as int));
            }
            if flags & table[i].mask() != 0 {
                set.push(table[i]);
            }
            i += 1;
        }
        assert(table@.take(table.len() as int) =~= table@);
        set
    }
}

} // verus!
