//! The description of a struct or enum schema that the field wrapping works on.
//!
//! Every executable type here comes with a mathematical model (a `...Model`
//! type made of `Seq`s), reached through `@`. The contracts of the
//! transformation speak of the models only.

use vstd::prelude::*;

verus! {

/// One argument between the angle brackets of a path segment.
#[derive(Debug, PartialEq, Eq)]
pub enum GenericArg {
    /// A type argument, such as the `X` of `Option<X>`.
    Type(TypeExpr),
    /// Any other argument (a lifetime, a constant, a binding), kept as source text.
    Other(String),
}

/// What follows the identifier of a path segment.
#[derive(Debug, PartialEq, Eq)]
pub enum PathArguments {
    /// Nothing: `Vec`.
    Plain,
    /// Arguments in angle brackets: `Vec<X>`.
    AngleBracketed(Vec<GenericArg>),
    /// Arguments in round brackets, as in `Fn(A) -> B`, kept as source text.
    Parenthesized(String),
}

/// One segment of a type path: an identifier and its arguments.
#[derive(Debug, PartialEq, Eq)]
pub struct PathSegment {
    pub ident: String,
    pub arguments: PathArguments,
}

/// The qualified self type in a path such as `<T as Trait>::Item`.
#[derive(Debug, PartialEq, Eq)]
pub struct QSelf {
    /// The source text of the self type: the `T` of `<T as Trait>`.
    pub ty: String,
    /// How many of the path's segments belong to the trait.
    pub position: usize,
}

/// Model of a [`QSelf`].
pub struct QSelfModel {
    pub ty: Seq<char>,
    pub position: usize,
}

/// A type written as a path, such as `::std::option::Option<X>`.
#[derive(Debug, PartialEq, Eq)]
pub struct TypePath {
    /// The qualified self type, if the path has one.
    pub qself: Option<QSelf>,
    /// Whether the path starts with `::`.
    pub leading_colon: bool,
    pub segments: Vec<PathSegment>,
}

/// The declared type of a field.
#[derive(Debug, PartialEq, Eq)]
pub enum TypeExpr {
    /// A path type.
    Path(TypePath),
    /// Any other type (a reference, a tuple, an array, ...), kept as source text.
    Other(String),
}

/// Model of a [`GenericArg`].
pub enum GenericArgModel {
    Type(TypeModel),
    Other(Seq<char>),
}

/// Model of [`PathArguments`].
pub enum PathArgumentsModel {
    Plain,
    AngleBracketed(Seq<GenericArgModel>),
    Parenthesized(Seq<char>),
}

/// Model of a [`PathSegment`].
pub struct PathSegmentModel {
    pub ident: Seq<char>,
    pub arguments: PathArgumentsModel,
}

/// Model of a [`TypePath`].
pub struct TypePathModel {
    pub qself: Option<QSelfModel>,
    pub leading_colon: bool,
    pub segments: Seq<PathSegmentModel>,
}

/// Model of a [`TypeExpr`].
pub enum TypeModel {
    Path(TypePathModel),
    Other(Seq<char>),
}

pub open spec fn qself_model(qself: Option<QSelf>) -> Option<QSelfModel> {
    match qself {
        Some(q) => Some(QSelfModel { ty: q.ty@, position: q.position }),
        None => None,
    }
}

pub open spec fn text_model(text: Option<String>) -> Option<Seq<char>> {
    match text {
        Some(s) => Some(s@),
        None => None,
    }
}

pub open spec fn type_model(ty: TypeExpr) -> TypeModel
    decreases ty,
{
    match ty {
        TypeExpr::Path(path) => TypeModel::Path(
            TypePathModel {
                qself: qself_model(path.qself),
                leading_colon: path.leading_colon,
                segments: Seq::new(
                    path.segments@.len(),
                    |i: int|
                        if 0 <= i < path.segments@.len() {
                            segment_model(path.segments@[i])
                        } else {
                            arbitrary()
                        },
                ),
            },
        ),
        TypeExpr::Other(text) => TypeModel::Other(text@),
    }
}

pub open spec fn segment_model(segment: PathSegment) -> PathSegmentModel
    decreases segment,
{
    PathSegmentModel {
        ident: segment.ident@,
        arguments: match segment.arguments {
            PathArguments::Plain => PathArgumentsModel::Plain,
            PathArguments::AngleBracketed(args) => PathArgumentsModel::AngleBracketed(
                Seq::new(
                    args@.len(),
                    |i: int|
                        if 0 <= i < args@.len() {
                            generic_arg_model(args@[i])
                        } else {
                            arbitrary()
                        },
                ),
            ),
            PathArguments::Parenthesized(text) => PathArgumentsModel::Parenthesized(text@),
        },
    }
}

pub open spec fn generic_arg_model(arg: GenericArg) -> GenericArgModel
    decreases arg,
{
    match arg {
        GenericArg::Type(ty) => GenericArgModel::Type(type_model(ty)),
        GenericArg::Other(text) => GenericArgModel::Other(text@),
    }
}

impl View for TypeExpr {
    type V = TypeModel;

    open spec fn view(&self) -> TypeModel {
        type_model(*self)
    }
}

impl View for PathSegment {
    type V = PathSegmentModel;

    open spec fn view(&self) -> PathSegmentModel {
        segment_model(*self)
    }
}

impl View for GenericArg {
    type V = GenericArgModel;

    open spec fn view(&self) -> GenericArgModel {
        generic_arg_model(*self)
    }
}

/// The models of a sequence of segments, in order.
pub open spec fn segment_models(segments: Seq<PathSegment>) -> Seq<PathSegmentModel> {
    Seq::new(segments.len(), |i: int| segments[i]@)
}

/// The models of a sequence of generic arguments, in order.
pub open spec fn generic_arg_models(args: Seq<GenericArg>) -> Seq<GenericArgModel> {
    Seq::new(args.len(), |i: int| args[i]@)
}

/// Unfolds the model of a path type by one level.
pub proof fn lemma_path_model(path: TypePath)
    ensures
        TypeExpr::Path(path)@ == TypeModel::Path(
            TypePathModel {
                qself: qself_model(path.qself),
                leading_colon: path.leading_colon,
                segments: segment_models(path.segments@),
            },
        ),
{
    assert(TypeExpr::Path(path)@->Path_0.segments =~= segment_models(path.segments@));
}

/// Unfolds the model of a segment with angle-bracketed arguments by one level.
pub proof fn lemma_angle_model(ident: String, args: Vec<GenericArg>)
    ensures
        (PathSegment { ident, arguments: PathArguments::AngleBracketed(args) })@
            == (PathSegmentModel {
            ident: ident@,
            arguments: PathArgumentsModel::AngleBracketed(generic_arg_models(args@)),
        }),
{
    let segment = PathSegment { ident, arguments: PathArguments::AngleBracketed(args) };
    assert(segment@.arguments->AngleBracketed_0 =~= generic_arg_models(args@));
}

/// The three forms of an attribute.
#[derive(Clone, Copy, Debug, PartialEq, Eq, Structural)]
pub enum MetaKind {
    /// A bare path: `#[test]`.
    Path,
    /// A path with a list: `#[derive(Clone)]`.
    List,
    /// A path with a value: `#[doc = "text"]`.
    NameValue,
}

/// An attribute on a schema, a field or a variant.
#[derive(Debug, PartialEq, Eq)]
pub struct Attribute {
    pub kind: MetaKind,
    /// The attribute's path where it is a single identifier.
    pub ident: Option<String>,
    /// The source text inside the brackets of a list; empty otherwise.
    pub tokens: String,
    /// The source text of the whole attribute.
    pub text: String,
}

/// Model of an [`Attribute`].
pub struct AttributeModel {
    pub kind: MetaKind,
    pub ident: Option<Seq<char>>,
    pub tokens: Seq<char>,
    pub text: Seq<char>,
}

impl View for Attribute {
    type V = AttributeModel;

    open spec fn view(&self) -> AttributeModel {
        AttributeModel {
            kind: self.kind,
            ident: text_model(self.ident),
            tokens: self.tokens@,
            text: self.text@,
        }
    }
}

/// The models of a sequence of attributes, in order.
pub open spec fn attribute_models(attrs: Seq<Attribute>) -> Seq<AttributeModel> {
    Seq::new(attrs.len(), |i: int| attrs[i]@)
}

/// One field of a struct or of an enum variant.
#[derive(Debug, PartialEq, Eq)]
pub struct Field {
    pub attrs: Vec<Attribute>,
    /// The source text of the visibility; empty where the field has none.
    pub vis: String,
    /// The name of a named field.
    pub ident: Option<String>,
    pub ty: TypeExpr,
}

/// Model of a [`Field`].
pub struct FieldModel {
    pub attrs: Seq<AttributeModel>,
    pub vis: Seq<char>,
    pub ident: Option<Seq<char>>,
    pub ty: TypeModel,
}

impl View for Field {
    type V = FieldModel;

    open spec fn view(&self) -> FieldModel {
        FieldModel {
            attrs: attribute_models(self.attrs@),
            vis: self.vis@,
            ident: text_model(self.ident),
            ty: self.ty@,
        }
    }
}

/// The models of a sequence of fields, in order.
pub open spec fn field_models(fields: Seq<Field>) -> Seq<FieldModel> {
    Seq::new(fields.len(), |i: int| fields[i]@)
}

/// The fields of a struct or of an enum variant.
#[derive(Debug, PartialEq, Eq)]
pub enum Fields {
    /// `{ a: A, b: B }`
    Named(Vec<Field>),
    /// `(A, B)`
    Unnamed(Vec<Field>),
    /// No fields at all.
    Unit,
}

/// Model of [`Fields`].
pub enum FieldsModel {
    Named(Seq<FieldModel>),
    Unnamed(Seq<FieldModel>),
    Unit,
}

impl View for Fields {
    type V = FieldsModel;

    open spec fn view(&self) -> FieldsModel {
        match self {
            Fields::Named(fields) => FieldsModel::Named(field_models(fields@)),
            Fields::Unnamed(fields) => FieldsModel::Unnamed(field_models(fields@)),
            Fields::Unit => FieldsModel::Unit,
        }
    }
}

/// One variant of an enum.
#[derive(Debug, PartialEq, Eq)]
pub struct Variant {
    pub attrs: Vec<Attribute>,
    pub ident: String,
    pub fields: Fields,
    /// The source text of an explicit discriminant: the `1` of `A = 1`.
    pub discriminant: Option<String>,
}

/// Model of a [`Variant`].
pub struct VariantModel {
    pub attrs: Seq<AttributeModel>,
    pub ident: Seq<char>,
    pub fields: FieldsModel,
    pub discriminant: Option<Seq<char>>,
}

impl View for Variant {
    type V = VariantModel;

    open spec fn view(&self) -> VariantModel {
        VariantModel {
            attrs: attribute_models(self.attrs@),
            ident: self.ident@,
            fields: self.fields@,
            discriminant: text_model(self.discriminant),
        }
    }
}

/// The models of a sequence of variants, in order.
pub open spec fn variant_models(variants: Seq<Variant>) -> Seq<VariantModel> {
    Seq::new(variants.len(), |i: int| variants[i]@)
}

/// The body of a schema.
#[derive(Debug, PartialEq, Eq)]
pub enum Data {
    Struct(Fields),
    Enum(Vec<Variant>),
    Union,
}

/// Model of [`Data`].
pub enum DataModel {
    Struct(FieldsModel),
    Enum(Seq<VariantModel>),
    Union,
}

impl View for Data {
    type V = DataModel;

    open spec fn view(&self) -> DataModel {
        match self {
            Data::Struct(fields) => DataModel::Struct(fields@),
            Data::Enum(variants) => DataModel::Enum(variant_models(variants@)),
            Data::Union => DataModel::Union,
        }
    }
}

/// A struct or enum definition: the input and the output of the transformation.
#[derive(Debug, PartialEq, Eq)]
pub struct Schema {
    pub attrs: Vec<Attribute>,
    /// The source text of the visibility.
    pub vis: String,
    pub ident: String,
    /// The source text of the generic parameters, brackets included.
    pub generics: String,
    /// The source text of the where clause, `where` included; empty where
    /// there is none.
    pub where_clause: String,
    pub data: Data,
}

/// Model of a [`Schema`].
pub struct SchemaModel {
    pub attrs: Seq<AttributeModel>,
    pub vis: Seq<char>,
    pub ident: Seq<char>,
    pub generics: Seq<char>,
    pub where_clause: Seq<char>,
    pub data: DataModel,
}

impl View for Schema {
    type V = SchemaModel;

    open spec fn view(&self) -> SchemaModel {
        SchemaModel {
            attrs: attribute_models(self.attrs@),
            vis: self.vis@,
            ident: self.ident@,
            generics: self.generics@,
            where_clause: self.where_clause@,
            data: self.data@,
        }
    }
}

} // verus!
