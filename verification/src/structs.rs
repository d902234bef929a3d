//! Struct declarations and the type expressions of their fields.

use vstd::prelude::*;
use vstd::string::*;
use crate::errors::DisasmError;
use crate::file_format::{
    CompiledModule, FieldDefinition, Kind, SignatureToken, StructDefinition,
    StructFieldInformation,
};
use crate::generics::{generic_name, kind_suffix, Generic, Generics};
use crate::imports::{find, import_token, ImportName, ImportRecord, Imports};
use crate::text::{joined, push_spaces, spaces};
use crate::{Encode, INDENT};

verus! {

/// The struct handle at `h` and all that its name needs resolve: the
/// handle itself, the module handle that owns it, that module's name and
/// address, and the struct's name.
pub open spec fn struct_ref_ok(m: &CompiledModule, h: u16) -> bool {
    &&& (h as int) < m.struct_handles@.len()
    &&& (m.struct_handles@[h as int].module as int) < m.module_handles@.len()
    &&& (m.struct_handles@[h as int].name as int) < m.identifiers@.len()
    &&& (m.module_handles@[m.struct_handles@[h as int].module as int].name as int)
        < m.identifiers@.len()
    &&& (m.module_handles@[m.struct_handles@[h as int].module as int].address as int)
        < m.address_identifiers@.len()
}

/// The name of the module that owns the struct handle at `h`.
pub open spec fn owner_name(m: &CompiledModule, h: u16) -> Seq<char> {
    m.identifiers@[m.module_handles@[m.struct_handles@[h as int].module as int].name as int]@
}

/// The address of the module that owns the struct handle at `h`.
pub open spec fn owner_address(m: &CompiledModule, h: u16) -> Seq<u8> {
    m.address_identifiers@[m.module_handles@[m.struct_handles@[h as int].module as int].address as int]@
}

/// The struct at `h` as a type expression names it: qualified by the
/// import token of its module where that module is imported, bare
/// otherwise.
pub open spec fn struct_ref_text(m: &CompiledModule, recs: Seq<ImportRecord>, h: u16) -> Seq<
    char,
> {
    let struct_name = m.identifiers@[m.struct_handles@[h as int].name as int]@;
    match find(recs, owner_name(m, h), owner_address(m, h)) {
        Some(k) => import_token(owner_name(m, h), k) + "::"@ + struct_name,
        None => struct_name,
    }
}

/// Every index in the signature resolves, for a struct with `nparams`
/// generic parameters.
pub open spec fn sig_ok(m: &CompiledModule, sig: &SignatureToken, nparams: nat) -> bool
    decreases sig,
{
    match sig {
        SignatureToken::Vector(t) => sig_ok(m, t, nparams),
        SignatureToken::Reference(t) => sig_ok(m, t, nparams),
        SignatureToken::MutableReference(t) => sig_ok(m, t, nparams),
        SignatureToken::Struct(h) => struct_ref_ok(m, *h),
        SignatureToken::StructInstantiation(h, args) => struct_ref_ok(m, *h) && forall|i: int|
            0 <= i < args@.len() ==> sig_ok(m, &(#[trigger] args@[i]), nparams),
        SignatureToken::TypeParameter(i) => (*i as nat) < nparams,
        _ => true,
    }
}

/// A list of type arguments: nothing where there is none, else the
/// arguments between `<` and `>`, with `, ` between each two.
pub open spec fn angle_list(items: Seq<Seq<char>>) -> Seq<char> {
    if items.len() == 0 {
        Seq::empty()
    } else {
        "<"@ + joined(items, ", "@, items.len()) + ">"@
    }
}

/// The texts of a list of signatures.
pub open spec fn sig_texts(
    m: &CompiledModule,
    recs: Seq<ImportRecord>,
    names: Seq<Seq<char>>,
    sigs: Seq<SignatureToken>,
) -> Seq<Seq<char>>
    decreases sigs,
{
    Seq::new(
        sigs.len(),
        |i: int|
            if 0 <= i < sigs.len() {
                sig_text(m, recs, names, &sigs[i])
            } else {
                Seq::empty()
            },
    )
}

/// The signature as a type expression, where `names` holds the names of
/// the enclosing struct's generic parameters.
pub open spec fn sig_text(
    m: &CompiledModule,
    recs: Seq<ImportRecord>,
    names: Seq<Seq<char>>,
    sig: &SignatureToken,
) -> Seq<char>
    decreases sig,
{
    match sig {
        SignatureToken::Bool => "bool"@,
        SignatureToken::U8 => "u8"@,
        SignatureToken::U64 => "u64"@,
        SignatureToken::U128 => "u128"@,
        SignatureToken::Address => "address"@,
        SignatureToken::Signer => "signer"@,
        SignatureToken::Vector(t) => "vector<"@ + sig_text(m, recs, names, t) + ">"@,
        SignatureToken::Reference(t) => "&"@ + sig_text(m, recs, names, t),
        SignatureToken::MutableReference(t) => "&mut "@ + sig_text(m, recs, names, t),
        SignatureToken::Struct(h) => struct_ref_text(m, recs, *h),
        SignatureToken::StructInstantiation(h, args) => struct_ref_text(m, recs, *h) + angle_list(
            sig_texts(m, recs, names, args@),
        ),
        SignatureToken::TypeParameter(i) => names[*i as int],
    }
}

/// The name of a struct, with the import that qualifies it, if any.
#[derive(Debug)]
pub struct FullStructName {
    pub name: String,
    pub import: Option<ImportName>,
}

impl FullStructName {
    /// The name is that of the struct handle at `h`: the struct's own
    /// name, and the import under which the module that owns it is
    /// registered in `recs`, or none where it is not registered.
    pub open spec fn names(&self, m: &CompiledModule, recs: Seq<ImportRecord>, h: u16) -> bool {
        &&& self.name@ == m.identifiers@[m.struct_handles@[h as int].name as int]@
        &&& match self.import {
            Some(import) => import.wf() && import.module_name() == owner_name(m, h) && find(
                recs,
                owner_name(m, h),
                owner_address(m, h),
            ) == Some(import.alias()),
            None => find(recs, owner_name(m, h), owner_address(m, h)) is None,
        }
    }
}

impl Encode for FullStructName {
    open spec fn text(&self, indent: u8) -> Seq<char> {
        match self.import {
            Some(import) => import.text(indent) + "::"@ + self.name@,
            None => self.name@,
        }
    }

    fn encode(&self, w: &mut String, indent: u8) {
        if let Some(import) = &self.import {
            import.encode(w, indent);
            w.append("::");
        }
        w.append(self.name.as_str());
    }
}

/// A decoded type expression.
#[derive(Debug)]
pub enum FType {
    Generic(Generic),
    Primitive(&'static str),
    Ref(Box<FType>),
    RefMut(Box<FType>),
    Vec(Box<FType>),
    Struct(FullStructName),
    StructInst(FullStructName, Vec<FType>),
}

/// The texts of a list of type expressions.
pub open spec fn rendered(items: Seq<FType>) -> Seq<Seq<char>>
    decreases items,
{
    Seq::new(
        items.len(),
        |i: int|
            if 0 <= i < items.len() {
                items[i].render()
            } else {
                Seq::empty()
            },
    )
}

impl FType {
    /// The type expression as it is written.
    pub open spec fn render(&self) -> Seq<char>
        decreases self,
    {
        match self {
            FType::Generic(g) => generic_name(g.prefix.0.stem(), g.index as nat),
            FType::Primitive(p) => p@,
            FType::Ref(t) => "&"@ + t.render(),
            FType::RefMut(t) => "&mut "@ + t.render(),
            FType::Vec(t) => "vector<"@ + t.render() + ">"@,
            FType::Struct(name) => name.text(0),
            FType::StructInst(name, args) => name.text(0) + angle_list(rendered(args@)),
        }
    }

    /// The type expression is the signature `sig` decoded, in a struct
    /// whose generic parameters are `params`: variant for variant, with
    /// every struct named as its handle says.
    pub open spec fn decodes(
        &self,
        m: &CompiledModule,
        recs: Seq<ImportRecord>,
        params: Seq<Generic>,
        sig: &SignatureToken,
    ) -> bool
        decreases sig,
    {
        match sig {
            SignatureToken::Bool => self matches FType::Primitive(p) && p@ == "bool"@,
            SignatureToken::U8 => self matches FType::Primitive(p) && p@ == "u8"@,
            SignatureToken::U64 => self matches FType::Primitive(p) && p@ == "u64"@,
            SignatureToken::U128 => self matches FType::Primitive(p) && p@ == "u128"@,
            SignatureToken::Address => self matches FType::Primitive(p) && p@ == "address"@,
            SignatureToken::Signer => self matches FType::Primitive(p) && p@ == "signer"@,
            SignatureToken::Vector(t) => self matches FType::Vec(inner) && inner.decodes(
                m,
                recs,
                params,
                t,
            ),
            SignatureToken::Reference(t) => self matches FType::Ref(inner) && inner.decodes(
                m,
                recs,
                params,
                t,
            ),
            SignatureToken::MutableReference(t) => self matches FType::RefMut(inner)
                && inner.decodes(m, recs, params, t),
            SignatureToken::Struct(h) => self matches FType::Struct(name) && name.names(
                m,
                recs,
                *h,
            ),
            SignatureToken::StructInstantiation(h, args) => self matches FType::StructInst(
                name,
                items,
            ) && name.names(m, recs, *h) && items@.len() == args@.len() && forall|i: int|
                0 <= i < args@.len() ==> items@[i].decodes(
                    m,
                    recs,
                    params,
                    &(#[trigger] args@[i]),
                ),
            SignatureToken::TypeParameter(i) => self matches FType::Generic(g) && (*i as int)
                < params.len() && g == params[*i as int],
        }
    }

    /// Appends the type expression to `w`.
    pub fn write_type(&self, w: &mut String)
        ensures
            final(w)@ == old(w)@ + self.render(),
        decreases self,
    {
        match self {
            FType::Generic(g) => {
                g.as_name().encode(w, 0);
            },
            FType::Primitive(p) => {
                w.append(p);
            },
            FType::Ref(t) => {
                w.append("&");
                t.write_type(w);
            },
            FType::RefMut(t) => {
                w.append("&mut ");
                t.write_type(w);
            },
            FType::Vec(t) => {
                w.append("vector<");
                t.write_type(w);
                w.append(">");
            },
            FType::Struct(name) => {
                name.encode(w, 0);
            },
            FType::StructInst(name, args) => {
                name.encode(w, 0);
                if args.len() > 0 {
                    let ghost parts = rendered(args@);
                    w.append("<");
                    let ghost start = w@;
                    let mut i: usize = 0;
                    while i < args.len()
                        invariant
                            i <= args@.len(),
                            parts.len() == args@.len(),
                            forall|k: int| 0 <= k < args@.len() ==> parts[k] == args@[k].render(),
                            w@ == start + joined(parts, ", "@, i as nat),
                            forall|k: int| 0 <= k < args@.len() ==> decreases_to!(self => args@[k]),
                        decreases args@.len() - i,
                    {
                        if i != 0 {
                            w.append(", ");
                        }
                        args[i].write_type(w);
                        i += 1;
                    }
                    w.append(">");
                } else {
                    assert(rendered(args@).len() == 0);
                }
            },
        }
    }
}

/// A struct name that stands for the handle at `h` is written as the
/// handle is: with the import token of the owning module where that
/// module is imported, bare otherwise.
pub proof fn named_struct_reads_as_handle(
    name: &FullStructName,
    m: &CompiledModule,
    recs: Seq<ImportRecord>,
    h: u16,
)
    requires
        name.names(m, recs, h),
    ensures
        name.text(0) == struct_ref_text(m, recs, h),
{
}

/// A type expression that is a signature decoded is written as the
/// signature is.
pub proof fn decoded_type_reads_as_signature(
    t: &FType,
    m: &CompiledModule,
    recs: Seq<ImportRecord>,
    params: Seq<Generic>,
    sig: &SignatureToken,
)
    requires
        t.decodes(m, recs, params, sig),
    ensures
        t.render() == sig_text(m, recs, param_names(params), sig),
    decreases sig,
{
    match sig {
        SignatureToken::Vector(inner) => {
            if let FType::Vec(u) = t {
                decoded_type_reads_as_signature(u, m, recs, params, inner);
            }
        },
        SignatureToken::Reference(inner) => {
            if let FType::Ref(u) = t {
                decoded_type_reads_as_signature(u, m, recs, params, inner);
            }
        },
        SignatureToken::MutableReference(inner) => {
            if let FType::RefMut(u) = t {
                decoded_type_reads_as_signature(u, m, recs, params, inner);
            }
        },
        SignatureToken::Struct(h) => {
            if let FType::Struct(name) = t {
                named_struct_reads_as_handle(name, m, recs, *h);
            }
        },
        SignatureToken::StructInstantiation(h, args) => {
            if let FType::StructInst(name, items) = t {
                named_struct_reads_as_handle(name, m, recs, *h);
                assert forall|i: int| 0 <= i < args@.len() implies items@[i].render() == sig_text(
                    m,
                    recs,
                    param_names(params),
                    &(#[trigger] args@[i]),
                ) by {
                    decoded_type_reads_as_signature(&items@[i], m, recs, params, &args@[i]);
                }
                assert(rendered(items@) =~= sig_texts(m, recs, param_names(params), args@));
            }
        },
        _ => {},
    }
}

impl Encode for FType {
    open spec fn text(&self, indent: u8) -> Seq<char> {
        self.render()
    }

    fn encode(&self, w: &mut String, indent: u8) {
        self.write_type(w);
    }
}

/// The names of a struct's generic parameters, as type expressions
/// refer to them.
pub open spec fn param_names(params: Seq<Generic>) -> Seq<Seq<char>> {
    Seq::new(
        params.len(),
        |i: int| generic_name(params[i].prefix.0.stem(), params[i].index as nat),
    )
}

/// A struct's generic parameters as its declaration lists them: each
/// name with its kind.
pub open spec fn param_decls(params: Seq<Generic>) -> Seq<Seq<char>> {
    Seq::new(params.len(), |i: int| params[i].text(0))
}

/// The parameter names that the stem `stem` gives to `n` parameters.
pub open spec fn stem_names(stem: Seq<char>, n: nat) -> Seq<Seq<char>> {
    Seq::new(n, |i: int| generic_name(stem, i as nat))
}

/// The parameter list that the stem `stem` gives to parameters of the
/// kinds `kinds`.
pub open spec fn stem_decls(stem: Seq<char>, kinds: Seq<Kind>) -> Seq<Seq<char>> {
    Seq::new(kinds.len(), |i: int| generic_name(stem, i as nat) + kind_suffix(kinds[i]))
}

/// One field of a declaration: `indent` spaces, the name, a colon and
/// the type.
pub open spec fn field_line(name: Seq<char>, ty: Seq<char>, indent: nat) -> Seq<char> {
    spaces(indent) + name + ": "@ + ty
}

/// The first `n` fields of a declaration, one to a line, each but the
/// declaration's last followed by a comma.
pub open spec fn field_lines(fields: Seq<(Seq<char>, Seq<char>)>, indent: nat, n: nat) -> Seq<
    char,
>
    decreases n,
{
    if n == 0 {
        Seq::empty()
    } else {
        field_lines(fields, indent, (n - 1) as nat) + field_line(
            fields[n - 1].0,
            fields[n - 1].1,
            indent,
        ) + if n == fields.len() {
            "\n"@
        } else {
            ",\n"@
        }
    }
}

/// The words that open a declaration. A native struct is written as
/// native whether or not it is a resource.
pub open spec fn keyword(native: bool, resource: bool) -> Seq<char> {
    if native {
        "native struct"@
    } else if resource {
        "resource struct"@
    } else {
        "struct"@
    }
}

/// A struct declaration, `indent` spaces from the margin. A native
/// struct ends in a semicolon and has no field block; any other has a
/// block in braces, with its fields one level further in, which is
/// there even if the struct has no field. No line break follows.
pub open spec fn decl_text(
    native: bool,
    resource: bool,
    name: Seq<char>,
    params: Seq<Seq<char>>,
    fields: Seq<(Seq<char>, Seq<char>)>,
    indent: nat,
) -> Seq<char> {
    let head = spaces(indent) + keyword(native, resource) + " "@ + name + angle_list(params);
    if native {
        head + ";"@
    } else {
        head + " {\n"@ + field_lines(fields, indent + INDENT as nat, fields.len()) + spaces(indent) + "}"@
    }
}

/// The field's name and every index in its type resolve.
pub open spec fn field_ok(m: &CompiledModule, f: &FieldDefinition, nparams: nat) -> bool {
    (f.name as int) < m.identifiers@.len() && sig_ok(m, &f.signature, nparams)
}

/// Every declared field resolves. A native layout has none.
pub open spec fn fields_ok(m: &CompiledModule, info: &StructFieldInformation, nparams: nat) -> bool {
    match info {
        StructFieldInformation::Native => true,
        StructFieldInformation::Declared(fs) => forall|j: int|
            0 <= j < fs@.len() ==> #[trigger] field_ok(m, &fs@[j], nparams),
    }
}

/// The declared fields, each as its name and the text of its type.
pub open spec fn decoded_fields(
    m: &CompiledModule,
    recs: Seq<ImportRecord>,
    names: Seq<Seq<char>>,
    info: &StructFieldInformation,
) -> Seq<(Seq<char>, Seq<char>)> {
    match info {
        StructFieldInformation::Native => Seq::empty(),
        StructFieldInformation::Declared(fs) => Seq::new(
            fs@.len(),
            |j: int|
                (m.identifiers@[fs@[j].name as int]@, sig_text(m, recs, names, &fs@[j].signature)),
        ),
    }
}

/// Every index that the definition's declaration needs resolves: its
/// struct handle, the struct's name, and its fields.
pub open spec fn def_ok(m: &CompiledModule, def: &StructDefinition) -> bool {
    &&& (def.struct_handle as int) < m.struct_handles@.len()
    &&& (m.struct_handles@[def.struct_handle as int].name as int) < m.identifiers@.len()
    &&& fields_ok(
        m,
        &def.field_information,
        m.struct_handles@[def.struct_handle as int].type_parameters@.len(),
    )
}

/// The declaration of a struct definition, given the module's imports
/// and the stem of its generic names.
pub open spec fn def_text(
    m: &CompiledModule,
    recs: Seq<ImportRecord>,
    stem: Seq<char>,
    def: &StructDefinition,
    indent: nat,
) -> Seq<char> {
    let h = m.struct_handles@[def.struct_handle as int];
    decl_text(
        def.field_information is Native,
        h.is_nominal_resource,
        m.identifiers@[h.name as int]@,
        stem_decls(stem, h.type_parameters@),
        decoded_fields(
            m,
            recs,
            stem_names(stem, h.type_parameters@.len()),
            &def.field_information,
        ),
        indent,
    )
}

/// A decoded field: its name and its type.
#[derive(Debug)]
pub struct Field {
    pub name: String,
    pub f_type: FType,
}

impl Field {
    /// Appends the field, `indent` spaces from the margin.
    pub fn write_line(&self, w: &mut String, indent: usize)
        ensures
            final(w)@ == old(w)@ + field_line(self.name@, self.f_type.render(), indent as nat),
    {
        push_spaces(w, indent);
        w.append(self.name.as_str());
        w.append(": ");
        self.f_type.write_type(w);
    }
}

impl Encode for Field {
    open spec fn text(&self, indent: u8) -> Seq<char> {
        field_line(self.name@, self.f_type.render(), indent as nat)
    }

    fn encode(&self, w: &mut String, indent: u8) {
        self.write_line(w, indent as usize);
    }
}

/// The fields are those of the layout `info`, decoded in order. A native
/// layout has none.
pub open spec fn fields_decode(
    fields: Seq<Field>,
    m: &CompiledModule,
    recs: Seq<ImportRecord>,
    params: Seq<Generic>,
    info: &StructFieldInformation,
) -> bool {
    match info {
        StructFieldInformation::Native => fields.len() == 0,
        StructFieldInformation::Declared(defs) => fields.len() == defs@.len() && forall|j: int|
            0 <= j < defs@.len() ==> (#[trigger] fields[j]).name@
                == m.identifiers@[defs@[j].name as int]@ && fields[j].f_type.decodes(
                m,
                recs,
                params,
                &defs@[j].signature,
            ),
    }
}

/// Decoded fields, each as its name and the text of its type.
pub open spec fn field_pairs(fields: Seq<Field>) -> Seq<(Seq<char>, Seq<char>)> {
    Seq::new(fields.len(), |j: int| (fields[j].name@, fields[j].f_type.render()))
}

/// A decoded struct declaration.
#[derive(Debug)]
pub struct StructDef {
    pub is_nominal_resource: bool,
    pub is_native: bool,
    pub name: String,
    pub type_params: Vec<Generic>,
    pub fields: Vec<Field>,
}

/// Appends a declaration's parameter list.
fn write_type_parameters(w: &mut String, type_params: &Vec<Generic>)
    ensures
        final(w)@ == old(w)@ + angle_list(param_decls(type_params@)),
{
    if type_params.len() > 0 {
        let ghost parts = param_decls(type_params@);
        w.append("<");
        let ghost start = w@;
        let mut i: usize = 0;
        while i < type_params.len()
            invariant
                i <= type_params@.len(),
                parts == param_decls(type_params@),
                w@ == start + joined(parts, ", "@, i as nat),
            decreases type_params@.len() - i,
        {
            if i != 0 {
                w.append(", ");
            }
            type_params[i].encode(w, 0);
            i += 1;
        }
        w.append(">");
    }
}

impl Encode for StructDef {
    open spec fn text(&self, indent: u8) -> Seq<char> {
        decl_text(
            self.is_native,
            self.is_nominal_resource,
            self.name@,
            param_decls(self.type_params@),
            field_pairs(self.fields@),
            indent as nat,
        )
    }

    fn encode(&self, w: &mut String, indent: u8) {
        let ghost pairs = field_pairs(self.fields@);
        let ghost inner = indent as nat + INDENT as nat;
        push_spaces(w, indent as usize);
        if self.is_native {
            w.append("native struct");
        } else if self.is_nominal_resource {
            w.append("resource struct");
        } else {
            w.append("struct");
        }
        w.append(" ");
        w.append(self.name.as_str());
        write_type_parameters(w, &self.type_params);
        if self.is_native {
            w.append(";");
        } else {
            w.append(" {\n");
            let ghost start = w@;
            let mut j: usize = 0;
            while j < self.fields.len()
                invariant
                    j <= self.fields@.len(),
                    pairs == field_pairs(self.fields@),
                    inner == indent as nat + INDENT as nat,
                    w@ == start + field_lines(pairs, inner, j as nat),
                decreases self.fields@.len() - j,
            {
                self.fields[j].write_line(w, indent as usize + INDENT as usize);
                if j != self.fields.len() - 1 {
                    w.append(",\n");
                } else {
                    w.append("\n");
                }
                j += 1;
            }
            push_spaces(w, indent as usize);
            w.append("}");
        }
    }
}

/// A declaration that is a definition decoded is written as the
/// definition is.
pub proof fn decoded_struct_reads_as_definition(
    s: &StructDef,
    m: &CompiledModule,
    recs: Seq<ImportRecord>,
    generic: Generics,
    def: &StructDefinition,
    indent: u8,
)
    requires
        s.decodes(m, recs, generic, def),
    ensures
        s.text(indent) == def_text(m, recs, generic.0.stem(), def, indent as nat),
{
    let h = m.struct_handles@[def.struct_handle as int];
    let names = stem_names(generic.0.stem(), h.type_parameters@.len());
    assert(s.type_params@.len() == s.type_params.len());
    assert forall|i: int| 0 <= i < s.type_params@.len() implies (#[trigger] s.type_params@[i]).index
        == i by {}
    assert(param_names(s.type_params@) =~= names);
    assert(param_decls(s.type_params@) =~= stem_decls(generic.0.stem(), h.type_parameters@));
    match &def.field_information {
        StructFieldInformation::Native => {},
        StructFieldInformation::Declared(defs) => {
            assert forall|j: int| 0 <= j < defs@.len() implies (#[trigger] s.fields@[j]).f_type.render()
                == sig_text(m, recs, names, &defs@[j].signature) by {
                decoded_type_reads_as_signature(
                    &s.fields@[j].f_type,
                    m,
                    recs,
                    s.type_params@,
                    &defs@[j].signature,
                );
            }
        },
    }
    assert(field_pairs(s.fields@) =~= decoded_fields(m, recs, names, &def.field_information));
}

impl StructDef {
    /// The declaration is the definition `def` decoded: its kind and name
    /// as the struct handle says, its generic parameters in order under
    /// the naming scheme `generic`, and its fields in order.
    pub open spec fn decodes(
        &self,
        m: &CompiledModule,
        recs: Seq<ImportRecord>,
        generic: Generics,
        def: &StructDefinition,
    ) -> bool {
        let h = m.struct_handles@[def.struct_handle as int];
        &&& self.is_native == (def.field_information is Native)
        &&& self.is_nominal_resource == h.is_nominal_resource
        &&& self.name@ == m.identifiers@[h.name as int]@
        &&& self.type_params@.len() == h.type_parameters@.len()
        &&& forall|i: int|
            0 <= i < self.type_params@.len() ==> #[trigger] self.type_params@[i] == (Generic {
                prefix: generic,
                index: i as usize,
                kind: h.type_parameters@[i],
            })
        &&& fields_decode(self.fields@, m, recs, self.type_params@, &def.field_information)
    }

    /// Decodes one struct definition of `module`.
    pub fn new(
        def: &StructDefinition,
        module: &CompiledModule,
        generic: &Generics,
        imports: &Imports,
    ) -> (r: Result<StructDef, DisasmError>)
        ensures
            r is Ok <==> def_ok(module, def),
            r matches Err(e) ==> e == DisasmError::StructuralIndex,
            r matches Ok(s) ==> s.decodes(module, imports@, *generic, def),
            r matches Ok(s) ==> forall|indent: u8| #[trigger]
                s.text(indent) == def_text(module, imports@, generic.0.stem(), def, indent as nat),
    {
        if def.struct_handle as usize >= module.struct_handles.len() {
            return Err(DisasmError::StructuralIndex);
        }
        let handler = &module.struct_handles[def.struct_handle as usize];
        if handler.name as usize >= module.identifiers.len() {
            return Err(DisasmError::StructuralIndex);
        }
        let name = module.identifiers[handler.name as usize].clone();
        let mut type_params: Vec<Generic> = Vec::new();
        let mut i: usize = 0;
        while i < handler.type_parameters.len()
            invariant
                i <= handler.type_parameters@.len(),
                type_params@.len() == i,
                forall|k: int|
                    0 <= k < i ==> #[trigger] type_params@[k] == (Generic {
                        prefix: *generic,
                        index: k as usize,
                        kind: handler.type_parameters@[k],
                    }),
            decreases handler.type_parameters@.len() - i,
        {
            type_params.push(generic.create_generic(i, handler.type_parameters[i]));
            i += 1;
        }
        proof {
            assert(param_names(type_params@) =~= stem_names(
                generic.0.stem(),
                handler.type_parameters@.len(),
            ));
            assert(param_decls(type_params@) =~= stem_decls(
                generic.0.stem(),
                handler.type_parameters@,
            ));
        }
        match Self::extract_fields(module, &def.field_information, imports, &type_params) {
            Err(e) => Err(e),
            Ok(fields) => {
                let is_native = match &def.field_information {
                    StructFieldInformation::Native => true,
                    StructFieldInformation::Declared(_) => false,
                };
                Ok(
                    StructDef {
                        is_nominal_resource: handler.is_nominal_resource,
                        is_native,
                        name,
                        type_params,
                        fields,
                    },
                )
            },
        }
    }

    /// Decodes the fields of a layout. A native layout has none.
    pub fn extract_fields(
        module: &CompiledModule,
        info: &StructFieldInformation,
        imports: &Imports,
        type_params: &Vec<Generic>,
    ) -> (r: Result<Vec<Field>, DisasmError>)
        ensures
            r is Ok <==> fields_ok(module, info, type_params@.len()),
            r matches Err(e) ==> e == DisasmError::StructuralIndex,
            r matches Ok(fs) ==> fields_decode(fs@, module, imports@, type_params@, info),
            r matches Ok(fs) ==> field_pairs(fs@) == decoded_fields(
                module,
                imports@,
                param_names(type_params@),
                info,
            ),
    {
        let mut out: Vec<Field> = Vec::new();
        if let StructFieldInformation::Declared(fields) = info {
            let mut j: usize = 0;
            while j < fields.len()
                invariant
                    j <= fields@.len(),
                    info == StructFieldInformation::Declared(*fields),
                    out@.len() == j,
                    forall|k: int|
                        0 <= k < j ==> #[trigger] field_ok(module, &fields@[k], type_params@.len()),
                    forall|k: int|
                        0 <= k < j ==> (#[trigger] out@[k]).f_type.decodes(
                            module,
                            imports@,
                            type_params@,
                            &fields@[k].signature,
                        ),
                    forall|k: int|
                        0 <= k < j ==> (#[trigger] out@[k]).name@
                            == module.identifiers@[fields@[k].name as int]@ && out@[k].f_type.render()
                            == sig_text(
                            module,
                            imports@,
                            param_names(type_params@),
                            &fields@[k].signature,
                        ),
                decreases fields@.len() - j,
            {
                let def = &fields[j];
                if def.name as usize >= module.identifiers.len() {
                    assert(!field_ok(module, &fields@[j as int], type_params@.len()));
                    assert(info matches StructFieldInformation::Declared(fs) && fs@ == fields@);
                    return Err(DisasmError::StructuralIndex);
                }
                match Self::extract_type_signature(module, &def.signature, imports, type_params) {
                    Err(e) => {
                        assert(!field_ok(module, &fields@[j as int], type_params@.len()));
                        assert(info matches StructFieldInformation::Declared(fs) && fs@ == fields@);
                        return Err(e);
                    },
                    Ok(f_type) => {
                        out.push(Field { name: module.identifiers[def.name as usize].clone(), f_type });
                    },
                }
                j += 1;
            }
        } else {
        }
        Ok(out)
    }

    /// Decodes one type signature, in a struct whose generic parameters
    /// are `type_params`.
    pub fn extract_type_signature(
        module: &CompiledModule,
        signature: &SignatureToken,
        imports: &Imports,
        type_params: &Vec<Generic>,
    ) -> (r: Result<FType, DisasmError>)
        ensures
            r is Ok <==> sig_ok(module, signature, type_params@.len()),
            r matches Err(e) ==> e == DisasmError::StructuralIndex,
            r matches Ok(t) ==> t.decodes(module, imports@, type_params@, signature),
            r matches Ok(t) ==> t.render() == sig_text(
                module,
                imports@,
                param_names(type_params@),
                signature,
            ),
        decreases signature,
    {
        match signature {
            SignatureToken::U8 => Ok(FType::Primitive("u8")),
            SignatureToken::Bool => Ok(FType::Primitive("bool")),
            SignatureToken::U64 => Ok(FType::Primitive("u64")),
            SignatureToken::U128 => Ok(FType::Primitive("u128")),
            SignatureToken::Address => Ok(FType::Primitive("address")),
            SignatureToken::Signer => Ok(FType::Primitive("signer")),
            SignatureToken::Vector(sign) => {
                match Self::extract_type_signature(module, sign, imports, type_params) {
                    Ok(t) => Ok(FType::Vec(Box::new(t))),
                    Err(e) => Err(e),
                }
            },
            SignatureToken::Struct(struct_index) => {
                match Self::extract_struct_name(module, *struct_index, imports) {
                    Ok(name) => Ok(FType::Struct(name)),
                    Err(e) => Err(e),
                }
            },
            SignatureToken::StructInstantiation(struct_index, typed) => {
                match Self::extract_struct_name(module, *struct_index, imports) {
                    Err(e) => Err(e),
                    Ok(name) => {
                        let mut args: Vec<FType> = Vec::new();
                        let mut i: usize = 0;
                        while i < typed.len()
                            invariant
                                i <= typed@.len(),
                                signature == SignatureToken::StructInstantiation(
                                    *struct_index,
                                    *typed,
                                ),
                                args@.len() == i,
                                forall|k: int|
                                    0 <= k < typed@.len() ==> decreases_to!(signature => typed@[k]),
                                forall|k: int|
                                    0 <= k < i ==> sig_ok(
                                        module,
                                        &(#[trigger] typed@[k]),
                                        type_params@.len(),
                                    ),
                                forall|k: int|
                                    0 <= k < i ==> args@[k].decodes(
                                        module,
                                        imports@,
                                        type_params@,
                                        &(#[trigger] typed@[k]),
                                    ),
                                forall|k: int|
                                    0 <= k < i ==> (#[trigger] args@[k]).render() == sig_text(
                                        module,
                                        imports@,
                                        param_names(type_params@),
                                        &typed@[k],
                                    ),
                            decreases typed@.len() - i,
                        {
                            match Self::extract_type_signature(
                                module,
                                &typed[i],
                                imports,
                                type_params,
                            ) {
                                Err(e) => {
                                    assert(signature matches SignatureToken::StructInstantiation(_, ts)
                                        && ts@ == typed@);
                                    return Err(e);
                                },
                                Ok(t) => {
                                    args.push(t);
                                },
                            }
                            i += 1;
                        }
                        assert(rendered(args@) =~= sig_texts(
                            module,
                            imports@,
                            param_names(type_params@),
                            typed@,
                        ));
                        Ok(FType::StructInst(name, args))
                    },
                }
            },
            SignatureToken::Reference(sign) => {
                match Self::extract_type_signature(module, sign, imports, type_params) {
                    Ok(t) => Ok(FType::Ref(Box::new(t))),
                    Err(e) => Err(e),
                }
            },
            SignatureToken::MutableReference(sign) => {
                match Self::extract_type_signature(module, sign, imports, type_params) {
                    Ok(t) => Ok(FType::RefMut(Box::new(t))),
                    Err(e) => Err(e),
                }
            },
            SignatureToken::TypeParameter(index) => {
                if (*index as usize) < type_params.len() {
                    Ok(FType::Generic(type_params[*index as usize]))
                } else {
                    Err(DisasmError::StructuralIndex)
                }
            },
        }
    }

    /// Resolves a struct handle to the struct's name and the import of
    /// the module that owns it.
    pub fn extract_struct_name(
        module: &CompiledModule,
        struct_index: u16,
        imports: &Imports,
    ) -> (r: Result<FullStructName, DisasmError>)
        ensures
            r is Ok <==> struct_ref_ok(module, struct_index),
            r matches Err(e) ==> e == DisasmError::StructuralIndex,
            r matches Ok(n) ==> n.names(module, imports@, struct_index) && n.text(0)
                == struct_ref_text(module, imports@, struct_index),
    {
        if struct_index as usize >= module.struct_handles.len() {
            return Err(DisasmError::StructuralIndex);
        }
        let handler = &module.struct_handles[struct_index as usize];
        if handler.module as usize >= module.module_handles.len() || handler.name as usize
            >= module.identifiers.len() {
            return Err(DisasmError::StructuralIndex);
        }
        let module_handler = module.module_handles[handler.module as usize];
        if module_handler.name as usize >= module.identifiers.len() || module_handler.address as usize
            >= module.address_identifiers.len() {
            return Err(DisasmError::StructuralIndex);
        }
        let module_name = module.identifiers[module_handler.name as usize].as_str();
        let address = &module.address_identifiers[module_handler.address as usize];
        let struct_name = module.identifiers[handler.name as usize].clone();
        let import = imports.get_import(address, module_name);
        Ok(FullStructName { name: struct_name, import })
    }
}

} // verus!
