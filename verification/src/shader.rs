//! Shader declarations of parametric drawing structs: WGSL type names of
//! their fields, the WGSL struct that declares them, and the assignment of
//! per-axis expressions.
//!
//! Rust types and structs are described here by the text of their tokens.

use vstd::prelude::*;
use vstd::string::*;

verus! {

/// A Rust type of a field, as far as the shader declaration reads it.
pub enum TypeModel {
    /// an array type `[elem; len]`, with the text of `len` when it is an
    /// integer literal and `None` otherwise
    Array { elem: Box<TypeModel>, len: Option<String> },
    /// a type path, as the text of its tokens
    Path(String),
    /// a tuple type
    Tuple,
    /// any other type, as the text of its tokens
    Other(String),
}

/// A field of a parametric drawing struct.
pub struct FieldModel {
    /// the field's name, `None` for a field of a tuple struct
    pub name: Option<String>,
    /// the field's type
    pub ty: TypeModel,
}

/// One per-axis expression of a parametric drawing: the axis it was
/// written for, and the expression.
pub struct AxisExpr<E> {
    pub axis: String,
    pub expr: E,
}

/// A parametric drawing struct: its name and fields, and the expressions of
/// its `x`, `y` and `z` coordinates.
pub struct ValuedItem<E> {
    pub name: String,
    pub fields: Vec<FieldModel>,
    pub x_fn: Option<E>,
    pub y_fn: Option<E>,
    pub z_fn: Option<E>,
}

/// The prefix of the names of generated shader structs.
pub open spec fn name_prefix() -> Seq<char> {
    seq!['M', 'N', 'D', 'L', '_', 'V', 'a', 'l', 'u', 'e', 'd', '_']
}

/// The WGSL scalar types that a type path may name.
pub open spec fn is_shader_scalar(t: Seq<char>) -> bool {
    t == "u32"@ || t == "i32"@ || t == "f32"@ || t == "bool"@
}

/// The message for an array whose length is not an integer literal.
pub open spec fn dynamic_array_message() -> Seq<char> {
    "dynamically sized arrays not supported"@
}

/// The message for a type that has no WGSL counterpart, before its text.
pub open spec fn unsupported_prefix() -> Seq<char> {
    "unsupported type: "@
}

/// The message for a field without a name.
pub open spec fn unnamed_field_message() -> Seq<char> {
    "Only structs with named fields are supported"@
}

/// The message for an expression written for an axis other than x, y, z.
pub open spec fn invalid_axis_message() -> Seq<char> {
    "Invalid axis"@
}

/// Whether naming the type reaches a tuple, for which no name is given.
pub open spec fn reaches_tuple(ty: TypeModel) -> bool
    decreases ty,
{
    match ty {
        TypeModel::Array { elem, len } => len is Some && reaches_tuple(*elem),
        TypeModel::Tuple => true,
        _ => false,
    }
}

/// The WGSL name of a type, or the message of why it has none.
pub open spec fn shader_type(ty: TypeModel) -> Result<Seq<char>, Seq<char>>
    decreases ty,
{
    match ty {
        TypeModel::Array { elem, len } => match len {
            None => Err(dynamic_array_message()),
            Some(n) => match shader_type(*elem) {
                Ok(t) => Ok("array<"@ + t + ", "@ + n@ + ">"@),
                Err(e) => Err(e),
            },
        },
        TypeModel::Path(p) => if is_shader_scalar(p@) {
            Ok(p@)
        } else {
            Err(unsupported_prefix() + p@)
        },
        TypeModel::Tuple => Err(Seq::empty()),
        TypeModel::Other(t) => Err(unsupported_prefix() + t@),
    }
}

/// The declaration of one field in a generated shader struct.
pub open spec fn field_line(name: Seq<char>, ty: Seq<char>) -> Seq<char> {
    ",\n                    "@ + name + ": "@ + ty
}

/// The field declarations of a generated shader struct, or the message of
/// the first field that cannot be declared.
pub open spec fn fields_text(fields: Seq<FieldModel>) -> Result<Seq<char>, Seq<char>>
    decreases fields.len(),
{
    if fields.len() == 0 {
        Ok(Seq::empty())
    } else {
        match fields_text(fields.drop_last()) {
            Err(e) => Err(e),
            Ok(t) => match shader_type(fields.last().ty) {
                Err(e) => Err(e),
                Ok(ty) => match fields.last().name {
                    None => Err(unnamed_field_message()),
                    Some(n) => Ok(t + field_line(n@, ty)),
                },
            },
        }
    }
}

/// Whether declaring the fields in order reaches a tuple type before any
/// field fails.
pub open spec fn fields_reach_tuple(fields: Seq<FieldModel>) -> bool
    decreases fields.len(),
{
    if fields.len() == 0 {
        false
    } else {
        fields_reach_tuple(fields.drop_last()) || (fields_text(fields.drop_last()) is Ok
            && reaches_tuple(fields.last().ty))
    }
}

/// The generated shader struct of a parametric drawing struct.
pub open spec fn shader_text(name: Seq<char>, fields: Seq<FieldModel>) -> Result<
    Seq<char>,
    Seq<char>,
> {
    match fields_text(fields) {
        Ok(f) => Ok("\nstruct "@ + name_prefix() + name + " {\n    "@ + f + "\n}\n        "@),
        Err(e) => Err(e),
    }
}

/// Which of the x, y and z slots an axis name fills: 0, 1, 2, or 3 for
/// none.
pub open spec fn axis_slot(axis: Seq<char>) -> int {
    if axis == "x"@ {
        0
    } else if axis == "y"@ {
        1
    } else if axis == "z"@ {
        2
    } else {
        3
    }
}

/// The index of the first expression written for an invalid axis, or the
/// number of expressions when all axes are valid.
pub open spec fn first_invalid_axis<E>(exprs: Seq<AxisExpr<E>>, j: int) -> int
    decreases exprs.len() - j,
{
    if j >= exprs.len() {
        exprs.len() as int
    } else if axis_slot(exprs[j].axis@) == 3 {
        j
    } else {
        first_invalid_axis(exprs, j + 1)
    }
}

/// The last expression among the first `n` that fills `slot`.
pub open spec fn last_for_slot<E>(exprs: Seq<AxisExpr<E>>, n: int, slot: int) -> Option<E>
    decreases n,
{
    if n <= 0 {
        None
    } else if axis_slot(exprs[n - 1].axis@) == slot {
        Some(exprs[n - 1].expr)
    } else {
        last_for_slot(exprs, n - 1, slot)
    }
}

fn text_of(s: &str) -> (r: String)
    ensures
        r@ == s@,
{
    String::from_str(s)
}

fn append_text(s: &mut String, t: &str)
    ensures
        final(s)@ == old(s)@ + t@,
{
    s.append(t);
}

/// The WGSL name of a type, or the message of why it has none.
pub fn to_shader_type(ty: &TypeModel) -> (r: Result<String, String>)
    requires
        !reaches_tuple(*ty),
    ensures
        match r {
            Ok(t) => shader_type(*ty) == Ok::<Seq<char>, Seq<char>>(t@),
            Err(e) => shader_type(*ty) == Err::<Seq<char>, Seq<char>>(e@),
        },
    decreases ty,
{
    match ty {
        TypeModel::Array { elem, len } => {
            match len {
                None => Err(text_of("dynamically sized arrays not supported")),
                Some(n) => {
                    match to_shader_type(elem) {
                        Ok(t) => {
                            let mut s = text_of("array<");
                            append_text(&mut s, t.as_str());
                            append_text(&mut s, ", ");
                            append_text(&mut s, n.as_str());
                            append_text(&mut s, ">");
                            Ok(s)
                        },
                        Err(e) => Err(e),
                    }
                },
            }
        },
        TypeModel::Path(p) => {
            let is_scalar = *p == text_of("u32") || *p == text_of("i32") || *p == text_of("f32")
                || *p == text_of("bool");
            if is_scalar {
                Ok(p.clone())
            } else {
                let mut s = text_of("unsupported type: ");
                append_text(&mut s, p.as_str());
                Err(s)
            }
        },
        TypeModel::Tuple => Err(String::new()),
        TypeModel::Other(t) => {
            let mut s = text_of("unsupported type: ");
            append_text(&mut s, t.as_str());
            Err(s)
        },
    }
}

proof fn lemma_fields_text_prefix_err(s: Seq<FieldModel>, k: int)
    requires
        0 <= k <= s.len(),
        fields_text(s.take(k)) is Err,
    ensures
        fields_text(s) == fields_text(s.take(k)),
    decreases s.len(),
{
    if k == s.len() {
        assert(s.take(k) =~= s);
    } else {
        assert(s.drop_last().take(k) =~= s.take(k));
        lemma_fields_text_prefix_err(s.drop_last(), k);
    }
}

proof fn lemma_fields_reach_tuple_prefix(s: Seq<FieldModel>, k: int)
    requires
        0 <= k <= s.len(),
        !fields_reach_tuple(s),
    ensures
        !fields_reach_tuple(s.take(k)),
    decreases s.len(),
{
    if k == s.len() {
        assert(s.take(k) =~= s);
    } else {
        assert(s.drop_last().take(k) =~= s.take(k));
        lemma_fields_reach_tuple_prefix(s.drop_last(), k);
    }
}

proof fn lemma_first_invalid_axis<E>(s: Seq<AxisExpr<E>>, j: int)
    requires
        0 <= j <= s.len(),
    ensures
        j <= first_invalid_axis(s, j) <= s.len(),
        forall|k: int| j <= k < first_invalid_axis(s, j) ==> axis_slot(#[trigger] s[k].axis@) != 3,
        first_invalid_axis(s, j) < s.len() ==> axis_slot(s[first_invalid_axis(s, j)].axis@) == 3,
    decreases s.len() - j,
{
    if j < s.len() && axis_slot(s[j].axis@) != 3 {
        lemma_first_invalid_axis(s, j + 1);
    }
}

impl<E> ValuedItem<E> {
    /// The WGSL declaration of the struct, named with the `MNDL_Valued_`
    /// prefix, or the message of the first field that cannot be declared.
    pub fn shader_code(&self) -> (r: Result<String, String>)
        requires
            !fields_reach_tuple(self.fields@),
        ensures
            match r {
                Ok(t) => shader_text(self.name@, self.fields@) == Ok::<Seq<char>, Seq<char>>(t@),
                Err(e) => shader_text(self.name@, self.fields@) == Err::<Seq<char>, Seq<char>>(e@),
            },
    {
        let mut id = text_of("MNDL_Valued_");
        proof {
            reveal_strlit("MNDL_Valued_");
        }
        append_text(&mut id, self.name.as_str());
        let mut fields = String::new();
        let n = self.fields.len();
        let mut i: usize = 0;
        assert(self.fields@.take(0) =~= Seq::<FieldModel>::empty());
        while i < n
            invariant
                i <= n,
                n == self.fields@.len(),
                !fields_reach_tuple(self.fields@),
                fields_text(self.fields@.take(i as int)) == Ok::<Seq<char>, Seq<char>>(fields@),
            decreases n - i,
        {
            let f = &self.fields[i];
            proof {
                lemma_fields_reach_tuple_prefix(self.fields@, i + 1);
                assert(self.fields@.take(i + 1).drop_last() =~= self.fields@.take(i as int));
                assert(self.fields@.take(i + 1).last() == self.fields@[i as int]);
            }
            match to_shader_type(&f.ty) {
                Err(e) => {
                    proof {
                        lemma_fields_text_prefix_err(self.fields@, i + 1);
                    }
                    return Err(e);
                },
                Ok(ty) => {
                    match &f.name {
                        None => {
                            proof {
                                lemma_fields_text_prefix_err(self.fields@, i + 1);
                            }
                            return Err(text_of("Only structs with named fields are supported"));
                        },
                        Some(name) => {
                            append_text(&mut fields, ",\n                    ");
                            append_text(&mut fields, name.as_str());
                            append_text(&mut fields, ": ");
                            append_text(&mut fields, ty.as_str());
                            assert(fields@ =~= fields_text(self.fields@.take(i as int))->Ok_0
                                + field_line(name@, ty@));
                        },
                    }
                },
            }
            i = i + 1;
        }
        assert(self.fields@.take(n as int) =~= self.fields@);
        let mut code = text_of("\nstruct ");
        append_text(&mut code, id.as_str());
        append_text(&mut code, " {\n    ");
        append_text(&mut code, fields.as_str());
        append_text(&mut code, "\n}\n        ");
        assert(code@ =~= "\nstruct "@ + name_prefix() + self.name@ + " {\n    "@ + fields@
            + "\n}\n        "@);
        Ok(code)
    }

    /// A parametric drawing struct from its name, its fields, and the
    /// expressions written for its axes in order: the last expression
    /// written for an axis is the one it keeps; an expression for an axis
    /// other than `x`, `y` or `z` is an error.
    pub fn from_parts(name: String, fields: Vec<FieldModel>, exprs: Vec<AxisExpr<E>>) -> (r: Result<
        Self,
        String,
    >)
        ensures
            r is Err <==> first_invalid_axis(exprs@, 0) < exprs@.len(),
            r matches Err(e) ==> e@ == invalid_axis_message(),
            r matches Ok(item) ==> {
                &&& item.name == name
                &&& item.fields == fields
                &&& item.x_fn == last_for_slot(exprs@, exprs@.len() as int, 0)
                &&& item.y_fn == last_for_slot(exprs@, exprs@.len() as int, 1)
                &&& item.z_fn == last_for_slot(exprs@, exprs@.len() as int, 2)
            },
    {
        let total = exprs.len();
        let ghost all = exprs@;
        assert(all.skip(0) =~= all);
        let mut rest = exprs;
        let mut x_fn: Option<E> = None;
        let mut y_fn: Option<E> = None;
        let mut z_fn: Option<E> = None;
        let mut i: usize = 0;
        while rest.len() > 0
            invariant
                i <= all.len(),
                all.len() == total,
                all == exprs@,
                rest@ == all.skip(i as int),
                forall|k: int| 0 <= k < i ==> axis_slot(#[trigger] all[k].axis@) != 3,
                x_fn == last_for_slot(all, i as int, 0),
                y_fn == last_for_slot(all, i as int, 1),
                z_fn == last_for_slot(all, i as int, 2),
            decreases rest.len(),
        {
            let e = rest.remove(0);
            assert(e == all[i as int]);
            let x = text_of("x");
            let y = text_of("y");
            let z = text_of("z");
            if e.axis == x {
                x_fn = Some(e.expr);
            } else if e.axis == y {
                y_fn = Some(e.expr);
            } else if e.axis == z {
                z_fn = Some(e.expr);
            } else {
                assert(axis_slot(all[i as int].axis@) == 3);
                proof {
                    lemma_first_invalid_axis(all, 0);
                }
                return Err(text_of("Invalid axis"));
            }
            i = i + 1;
            assert(rest@ =~= all.skip(i as int));
        }
        proof {
            lemma_first_invalid_axis(all, 0);
        }
        Ok(ValuedItem { name, fields, x_fn, y_fn, z_fn })
    }
}

/// A type path has a WGSL type exactly when its text is `u32`, `i32`, `f32`
/// or `bool`, and then it keeps its text; any other type path is refused
/// with `unsupported type: ` followed by its text.
pub proof fn lemma_path_types(p: String)
    ensures
        shader_type(TypeModel::Path(p)) is Ok <==> (p@ == "u32"@ || p@ == "i32"@ || p@ == "f32"@
            || p@ == "bool"@),
        shader_type(TypeModel::Path(p)) is Ok ==> shader_type(TypeModel::Path(p)) == Ok::<
            Seq<char>,
            Seq<char>,
        >(p@),
        shader_type(TypeModel::Path(p)) is Err ==> shader_type(TypeModel::Path(p)) == Err::<
            Seq<char>,
            Seq<char>,
        >("unsupported type: "@ + p@),
{
}

} // verus!
