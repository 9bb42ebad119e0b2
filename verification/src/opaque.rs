//! Opaque values: what crosses a node boundary once the types on both sides
//! have been erased. An opaque value carries its payload together with a tag
//! that tells its type, so that the type can be recovered, or the attempt
//! refused, when the value arrives.

use crate::graphic_element::{Artboard, ArtboardGroup, GraphicElement, GraphicGroup};
use crate::raster::{Color, ImageFrame};
use crate::transform::Footprint;
use crate::vector::VectorData;
use glam::IVec2;
use vstd::prelude::*;

verus! {

/// The types that an opaque value can carry.
#[derive(Clone, Copy, Debug, PartialEq, Eq, Structural, Hash)]
pub enum TypeTag {
    /// The type without content, which stands for "no input".
    Unit,
    Bool,
    U32,
    /// A pair of numbers.
    U32Pair,
    /// An owned string.
    Text,
    IntVector,
    Color,
    Footprint,
    GraphicElement,
    GraphicGroup,
    Artboard,
    ArtboardGroup,
    VectorData,
    ImageFrame,
    /// A borrowed number.
    U32Ref,
    /// A borrowed group.
    GraphicGroupRef,
}

impl TypeTag {
    /// The name of the type, as diagnostics show it.
    pub open spec fn name_spec(self) -> Seq<char> {
        match self {
            TypeTag::Unit => "()"@,
            TypeTag::Bool => "bool"@,
            TypeTag::U32 => "u32"@,
            TypeTag::U32Pair => "(u32, u32)"@,
            TypeTag::Text => "String"@,
            TypeTag::IntVector => "IVec2"@,
            TypeTag::Color => "Color"@,
            TypeTag::Footprint => "Footprint"@,
            TypeTag::GraphicElement => "GraphicElement"@,
            TypeTag::GraphicGroup => "GraphicGroup"@,
            TypeTag::Artboard => "Artboard"@,
            TypeTag::ArtboardGroup => "ArtboardGroup"@,
            TypeTag::VectorData => "VectorData"@,
            TypeTag::ImageFrame => "ImageFrame"@,
            TypeTag::U32Ref => "&u32"@,
            TypeTag::GraphicGroupRef => "&GraphicGroup"@,
        }
    }

    /// The name of the type, as diagnostics show it.
    pub fn name(self) -> (name: &'static str)
        ensures
            name@ == self.name_spec(),
    {
        match self {
            TypeTag::Unit => "()",
            TypeTag::Bool => "bool",
            TypeTag::U32 => "u32",
            TypeTag::U32Pair => "(u32, u32)",
            TypeTag::Text => "String",
            TypeTag::IntVector => "IVec2",
            TypeTag::Color => "Color",
            TypeTag::Footprint => "Footprint",
            TypeTag::GraphicElement => "GraphicElement",
            TypeTag::GraphicGroup => "GraphicGroup",
            TypeTag::Artboard => "Artboard",
            TypeTag::ArtboardGroup => "ArtboardGroup",
            TypeTag::VectorData => "VectorData",
            TypeTag::ImageFrame => "ImageFrame",
            TypeTag::U32Ref => "&u32",
            TypeTag::GraphicGroupRef => "&GraphicGroup",
        }
    }
}

/// A value with its type erased: exactly one variant, which tells the type
/// of the payload.
#[derive(Debug, PartialEq)]
pub enum Any<'a> {
    Unit,
    Bool(bool),
    U32(u32),
    U32Pair(u32, u32),
    Text(String),
    IntVector(IVec2),
    Color(Color),
    Footprint(Footprint),
    GraphicElement(GraphicElement),
    GraphicGroup(GraphicGroup),
    Artboard(Artboard),
    ArtboardGroup(ArtboardGroup),
    VectorData(VectorData),
    ImageFrame(ImageFrame),
    U32Ref(&'a u32),
    GraphicGroupRef(&'a GraphicGroup),
}

impl<'a> Any<'a> {
    /// The type of the payload.
    pub open spec fn type_tag(self) -> TypeTag {
        match self {
            Any::Unit => TypeTag::Unit,
            Any::Bool(_) => TypeTag::Bool,
            Any::U32(_) => TypeTag::U32,
            Any::U32Pair(_, _) => TypeTag::U32Pair,
            Any::Text(_) => TypeTag::Text,
            Any::IntVector(_) => TypeTag::IntVector,
            Any::Color(_) => TypeTag::Color,
            Any::Footprint(_) => TypeTag::Footprint,
            Any::GraphicElement(_) => TypeTag::GraphicElement,
            Any::GraphicGroup(_) => TypeTag::GraphicGroup,
            Any::Artboard(_) => TypeTag::Artboard,
            Any::ArtboardGroup(_) => TypeTag::ArtboardGroup,
            Any::VectorData(_) => TypeTag::VectorData,
            Any::ImageFrame(_) => TypeTag::ImageFrame,
            Any::U32Ref(_) => TypeTag::U32Ref,
            Any::GraphicGroupRef(_) => TypeTag::GraphicGroupRef,
        }
    }

    /// The type of the payload.
    pub fn tag(&self) -> (tag: TypeTag)
        ensures
            tag == self.type_tag(),
    {
        match self {
            Any::Unit => TypeTag::Unit,
            Any::Bool(_) => TypeTag::Bool,
            Any::U32(_) => TypeTag::U32,
            Any::U32Pair(_, _) => TypeTag::U32Pair,
            Any::Text(_) => TypeTag::Text,
            Any::IntVector(_) => TypeTag::IntVector,
            Any::Color(_) => TypeTag::Color,
            Any::Footprint(_) => TypeTag::Footprint,
            Any::GraphicElement(_) => TypeTag::GraphicElement,
            Any::GraphicGroup(_) => TypeTag::GraphicGroup,
            Any::Artboard(_) => TypeTag::Artboard,
            Any::ArtboardGroup(_) => TypeTag::ArtboardGroup,
            Any::VectorData(_) => TypeTag::VectorData,
            Any::ImageFrame(_) => TypeTag::ImageFrame,
            Any::U32Ref(_) => TypeTag::U32Ref,
            Any::GraphicGroupRef(_) => TypeTag::GraphicGroupRef,
        }
    }
}

/// A type whose values can be erased to an opaque value and recovered from
/// one. Erasing and recovering lose nothing, and no two types share a tag.
pub trait StaticType<'a>: Sized {
    /// The tag that opaque values of this type carry.
    spec fn type_tag() -> TypeTag;

    /// The opaque value that carries `self`.
    spec fn erased(self) -> Any<'a>;

    /// The value that an opaque value of this type carries.
    spec fn recovered(any: Any<'a>) -> Self;

    /// The one value of the type, where the type has no content.
    spec fn zero_sized() -> Option<Self>;

    /// An erased value carries the tag of its type, and recovering it gives
    /// the value back.
    proof fn erasure_is_faithful(value: Self)
        ensures
            value.erased().type_tag() == Self::type_tag(),
            Self::recovered(value.erased()) == value,
    ;

    /// Erasing what was recovered from an opaque value of this type gives
    /// the opaque value back.
    proof fn recovery_is_faithful(any: Any<'a>)
        requires
            any.type_tag() == Self::type_tag(),
        ensures
            Self::recovered(any).erased() == any,
    ;

    /// A value can be made from nothing for the type without content, and
    /// for no other.
    proof fn only_unit_is_zero_sized()
        ensures
            Self::zero_sized().is_some() <==> Self::type_tag() == TypeTag::Unit,
    ;

    /// The tag that opaque values of this type carry.
    fn tag() -> (tag: TypeTag)
        ensures
            tag == Self::type_tag(),
    ;

    /// Erases the type of `self`.
    fn into_any(self) -> (any: Any<'a>)
        ensures
            any == self.erased(),
    ;

    /// Recovers a value of this type from an opaque value, or hands the
    /// opaque value back where it carries another type.
    fn from_any(any: Any<'a>) -> (recovered: Result<Self, Any<'a>>)
        ensures
            match recovered {
                Ok(value) => any.type_tag() == Self::type_tag() && value == Self::recovered(any),
                Err(rejected) => any.type_tag() != Self::type_tag() && rejected == any,
            },
    ;

    /// Makes the value of the type without content.
    fn synthesize() -> (value: Option<Self>)
        ensures
            value == Self::zero_sized(),
    ;
}

impl<'a> StaticType<'a> for () {
    open spec fn type_tag() -> TypeTag {
        TypeTag::Unit
    }

    open spec fn erased(self) -> Any<'a> {
        Any::Unit
    }

    open spec fn recovered(any: Any<'a>) -> Self {
        match any {
            Any::Unit => (),
            _ => arbitrary(),
        }
    }

    open spec fn zero_sized() -> Option<Self> {
        Some(())
    }

    proof fn erasure_is_faithful(value: Self) {
    }

    proof fn recovery_is_faithful(any: Any<'a>) {
    }

    proof fn only_unit_is_zero_sized() {
    }

    fn tag() -> (tag: TypeTag) {
        TypeTag::Unit
    }

    fn into_any(self) -> (any: Any<'a>) {
        Any::Unit
    }

    fn from_any(any: Any<'a>) -> (recovered: Result<Self, Any<'a>>) {
        match any {
            Any::Unit => Ok(()),
            other => Err(other),
        }
    }

    fn synthesize() -> (value: Option<Self>) {
        Some(())
    }
}

impl<'a> StaticType<'a> for bool {
    open spec fn type_tag() -> TypeTag {
        TypeTag::Bool
    }

    open spec fn erased(self) -> Any<'a> {
        Any::Bool(self)
    }

    open spec fn recovered(any: Any<'a>) -> Self {
        match any {
            Any::Bool(value) => value,
            _ => arbitrary(),
        }
    }

    open spec fn zero_sized() -> Option<Self> {
        None
    }

    proof fn erasure_is_faithful(value: Self) {
    }

    proof fn recovery_is_faithful(any: Any<'a>) {
    }

    proof fn only_unit_is_zero_sized() {
    }

    fn tag() -> (tag: TypeTag) {
        TypeTag::Bool
    }

    fn into_any(self) -> (any: Any<'a>) {
        Any::Bool(self)
    }

    fn from_any(any: Any<'a>) -> (recovered: Result<Self, Any<'a>>) {
        match any {
            Any::Bool(value) => Ok(value),
            other => Err(other),
        }
    }

    fn synthesize() -> (value: Option<Self>) {
        None
    }
}

impl<'a> StaticType<'a> for u32 {
    open spec fn type_tag() -> TypeTag {
        TypeTag::U32
    }

    open spec fn erased(self) -> Any<'a> {
        Any::U32(self)
    }

    open spec fn recovered(any: Any<'a>) -> Self {
        match any {
            Any::U32(value) => value,
            _ => arbitrary(),
        }
    }

    open spec fn zero_sized() -> Option<Self> {
        None
    }

    proof fn erasure_is_faithful(value: Self) {
    }

    proof fn recovery_is_faithful(any: Any<'a>) {
    }

    proof fn only_unit_is_zero_sized() {
    }

    fn tag() -> (tag: TypeTag) {
        TypeTag::U32
    }

    fn into_any(self) -> (any: Any<'a>) {
        Any::U32(self)
    }

    fn from_any(any: Any<'a>) -> (recovered: Result<Self, Any<'a>>) {
        match any {
            Any::U32(value) => Ok(value),
            other => Err(other),
        }
    }

    fn synthesize() -> (value: Option<Self>) {
        None
    }
}

impl<'a> StaticType<'a> for (u32, u32) {
    open spec fn type_tag() -> TypeTag {
        TypeTag::U32Pair
    }

    open spec fn erased(self) -> Any<'a> {
        Any::U32Pair(self.0, self.1)
    }

    open spec fn recovered(any: Any<'a>) -> Self {
        match any {
            Any::U32Pair(first, second) => (first, second),
            _ => arbitrary(),
        }
    }

    open spec fn zero_sized() -> Option<Self> {
        None
    }

    proof fn erasure_is_faithful(value: Self) {
    }

    proof fn recovery_is_faithful(any: Any<'a>) {
    }

    proof fn only_unit_is_zero_sized() {
    }

    fn tag() -> (tag: TypeTag) {
        TypeTag::U32Pair
    }

    fn into_any(self) -> (any: Any<'a>) {
        Any::U32Pair(self.0, self.1)
    }

    fn from_any(any: Any<'a>) -> (recovered: Result<Self, Any<'a>>) {
        match any {
            Any::U32Pair(first, second) => Ok((first, second)),
            other => Err(other),
        }
    }

    fn synthesize() -> (value: Option<Self>) {
        None
    }
}

impl<'a> StaticType<'a> for String {
    open spec fn type_tag() -> TypeTag {
        TypeTag::Text
    }

    open spec fn erased(self) -> Any<'a> {
        Any::Text(self)
    }

    open spec fn recovered(any: Any<'a>) -> Self {
        match any {
            Any::Text(value) => value,
            _ => arbitrary(),
        }
    }

    open spec fn zero_sized() -> Option<Self> {
        None
    }

    proof fn erasure_is_faithful(value: Self) {
    }

    proof fn recovery_is_faithful(any: Any<'a>) {
    }

    proof fn only_unit_is_zero_sized() {
    }

    fn tag() -> (tag: TypeTag) {
        TypeTag::Text
    }

    fn into_any(self) -> (any: Any<'a>) {
        Any::Text(self)
    }

    fn from_any(any: Any<'a>) -> (recovered: Result<Self, Any<'a>>) {
        match any {
            Any::Text(value) => Ok(value),
            other => Err(other),
        }
    }

    fn synthesize() -> (value: Option<Self>) {
        None
    }
}

impl<'a> StaticType<'a> for IVec2 {
    open spec fn type_tag() -> TypeTag {
        TypeTag::IntVector
    }

    open spec fn erased(self) -> Any<'a> {
        Any::IntVector(self)
    }

    open spec fn recovered(any: Any<'a>) -> Self {
        match any {
            Any::IntVector(value) => value,
            _ => arbitrary(),
        }
    }

    open spec fn zero_sized() -> Option<Self> {
        None
    }

    proof fn erasure_is_faithful(value: Self) {
    }

    proof fn recovery_is_faithful(any: Any<'a>) {
    }

    proof fn only_unit_is_zero_sized() {
    }

    fn tag() -> (tag: TypeTag) {
        TypeTag::IntVector
    }

    fn into_any(self) -> (any: Any<'a>) {
        Any::IntVector(self)
    }

    fn from_any(any: Any<'a>) -> (recovered: Result<Self, Any<'a>>) {
        match any {
            Any::IntVector(value) => Ok(value),
            other => Err(other),
        }
    }

    fn synthesize() -> (value: Option<Self>) {
        None
    }
}

impl<'a> StaticType<'a> for Color {
    open spec fn type_tag() -> TypeTag {
        TypeTag::Color
    }

    open spec fn erased(self) -> Any<'a> {
        Any::Color(self)
    }

    open spec fn recovered(any: Any<'a>) -> Self {
        match any {
            Any::Color(value) => value,
            _ => arbitrary(),
        }
    }

    open spec fn zero_sized() -> Option<Self> {
        None
    }

    proof fn erasure_is_faithful(value: Self) {
    }

    proof fn recovery_is_faithful(any: Any<'a>) {
    }

    proof fn only_unit_is_zero_sized() {
    }

    fn tag() -> (tag: TypeTag) {
        TypeTag::Color
    }

    fn into_any(self) -> (any: Any<'a>) {
        Any::Color(self)
    }

    fn from_any(any: Any<'a>) -> (recovered: Result<Self, Any<'a>>) {
        match any {
            Any::Color(value) => Ok(value),
            other => Err(other),
        }
    }

    fn synthesize() -> (value: Option<Self>) {
        None
    }
}

impl<'a> StaticType<'a> for Footprint {
    open spec fn type_tag() -> TypeTag {
        TypeTag::Footprint
    }

    open spec fn erased(self) -> Any<'a> {
        Any::Footprint(self)
    }

    open spec fn recovered(any: Any<'a>) -> Self {
        match any {
            Any::Footprint(value) => value,
            _ => arbitrary(),
        }
    }

    open spec fn zero_sized() -> Option<Self> {
        None
    }

    proof fn erasure_is_faithful(value: Self) {
    }

    proof fn recovery_is_faithful(any: Any<'a>) {
    }

    proof fn only_unit_is_zero_sized() {
    }

    fn tag() -> (tag: TypeTag) {
        TypeTag::Footprint
    }

    fn into_any(self) -> (any: Any<'a>) {
        Any::Footprint(self)
    }

    fn from_any(any: Any<'a>) -> (recovered: Result<Self, Any<'a>>) {
        match any {
            Any::Footprint(value) => Ok(value),
            other => Err(other),
        }
    }

    fn synthesize() -> (value: Option<Self>) {
        None
    }
}

impl<'a> StaticType<'a> for GraphicElement {
    open spec fn type_tag() -> TypeTag {
        TypeTag::GraphicElement
    }

    open spec fn erased(self) -> Any<'a> {
        Any::GraphicElement(self)
    }

    open spec fn recovered(any: Any<'a>) -> Self {
        match any {
            Any::GraphicElement(value) => value,
            _ => arbitrary(),
        }
    }

    open spec fn zero_sized() -> Option<Self> {
        None
    }

    proof fn erasure_is_faithful(value: Self) {
    }

    proof fn recovery_is_faithful(any: Any<'a>) {
    }

    proof fn only_unit_is_zero_sized() {
    }

    fn tag() -> (tag: TypeTag) {
        TypeTag::GraphicElement
    }

    fn into_any(self) -> (any: Any<'a>) {
        Any::GraphicElement(self)
    }

    fn from_any(any: Any<'a>) -> (recovered: Result<Self, Any<'a>>) {
        match any {
            Any::GraphicElement(value) => Ok(value),
            other => Err(other),
        }
    }

    fn synthesize() -> (value: Option<Self>) {
        None
    }
}

impl<'a> StaticType<'a> for GraphicGroup {
    open spec fn type_tag() -> TypeTag {
        TypeTag::GraphicGroup
    }

    open spec fn erased(self) -> Any<'a> {
        Any::GraphicGroup(self)
    }

    open spec fn recovered(any: Any<'a>) -> Self {
        match any {
            Any::GraphicGroup(value) => value,
            _ => arbitrary(),
        }
    }

    open spec fn zero_sized() -> Option<Self> {
        None
    }

    proof fn erasure_is_faithful(value: Self) {
    }

    proof fn recovery_is_faithful(any: Any<'a>) {
    }

    proof fn only_unit_is_zero_sized() {
    }

    fn tag() -> (tag: TypeTag) {
        TypeTag::GraphicGroup
    }

    fn into_any(self) -> (any: Any<'a>) {
        Any::GraphicGroup(self)
    }

    fn from_any(any: Any<'a>) -> (recovered: Result<Self, Any<'a>>) {
        match any {
            Any::GraphicGroup(value) => Ok(value),
            other => Err(other),
        }
    }

    fn synthesize() -> (value: Option<Self>) {
        None
    }
}

impl<'a> StaticType<'a> for Artboard {
    open spec fn type_tag() -> TypeTag {
        TypeTag::Artboard
    }

    open spec fn erased(self) -> Any<'a> {
        Any::Artboard(self)
    }

    open spec fn recovered(any: Any<'a>) -> Self {
        match any {
            Any::Artboard(value) => value,
            _ => arbitrary(),
        }
    }

    open spec fn zero_sized() -> Option<Self> {
        None
    }

    proof fn erasure_is_faithful(value: Self) {
    }

    proof fn recovery_is_faithful(any: Any<'a>) {
    }

    proof fn only_unit_is_zero_sized() {
    }

    fn tag() -> (tag: TypeTag) {
        TypeTag::Artboard
    }

    fn into_any(self) -> (any: Any<'a>) {
        Any::Artboard(self)
    }

    fn from_any(any: Any<'a>) -> (recovered: Result<Self, Any<'a>>) {
        match any {
            Any::Artboard(value) => Ok(value),
            other => Err(other),
        }
    }

    fn synthesize() -> (value: Option<Self>) {
        None
    }
}

impl<'a> StaticType<'a> for ArtboardGroup {
    open spec fn type_tag() -> TypeTag {
        TypeTag::ArtboardGroup
    }

    open spec fn erased(self) -> Any<'a> {
        Any::ArtboardGroup(self)
    }

    open spec fn recovered(any: Any<'a>) -> Self {
        match any {
            Any::ArtboardGroup(value) => value,
            _ => arbitrary(),
        }
    }

    open spec fn zero_sized() -> Option<Self> {
        None
    }

    proof fn erasure_is_faithful(value: Self) {
    }

    proof fn recovery_is_faithful(any: Any<'a>) {
    }

    proof fn only_unit_is_zero_sized() {
    }

    fn tag() -> (tag: TypeTag) {
        TypeTag::ArtboardGroup
    }

    fn into_any(self) -> (any: Any<'a>) {
        Any::ArtboardGroup(self)
    }

    fn from_any(any: Any<'a>) -> (recovered: Result<Self, Any<'a>>) {
        match any {
            Any::ArtboardGroup(value) => Ok(value),
            other => Err(other),
        }
    }

    fn synthesize() -> (value: Option<Self>) {
        None
    }
}

impl<'a> StaticType<'a> for VectorData {
    open spec fn type_tag() -> TypeTag {
        TypeTag::VectorData
    }

    open spec fn erased(self) -> Any<'a> {
        Any::VectorData(self)
    }

    open spec fn recovered(any: Any<'a>) -> Self {
        match any {
            Any::VectorData(value) => value,
            _ => arbitrary(),
        }
    }

    open spec fn zero_sized() -> Option<Self> {
        None
    }

    proof fn erasure_is_faithful(value: Self) {
    }

    proof fn recovery_is_faithful(any: Any<'a>) {
    }

    proof fn only_unit_is_zero_sized() {
    }

    fn tag() -> (tag: TypeTag) {
        TypeTag::VectorData
    }

    fn into_any(self) -> (any: Any<'a>) {
        Any::VectorData(self)
    }

    fn from_any(any: Any<'a>) -> (recovered: Result<Self, Any<'a>>) {
        match any {
            Any::VectorData(value) => Ok(value),
            other => Err(other),
        }
    }

    fn synthesize() -> (value: Option<Self>) {
        None
    }
}

impl<'a> StaticType<'a> for ImageFrame {
    open spec fn type_tag() -> TypeTag {
        TypeTag::ImageFrame
    }

    open spec fn erased(self) -> Any<'a> {
        Any::ImageFrame(self)
    }

    open spec fn recovered(any: Any<'a>) -> Self {
        match any {
            Any::ImageFrame(value) => value,
            _ => arbitrary(),
        }
    }

    open spec fn zero_sized() -> Option<Self> {
        None
    }

    proof fn erasure_is_faithful(value: Self) {
    }

    proof fn recovery_is_faithful(any: Any<'a>) {
    }

    proof fn only_unit_is_zero_sized() {
    }

    fn tag() -> (tag: TypeTag) {
        TypeTag::ImageFrame
    }

    fn into_any(self) -> (any: Any<'a>) {
        Any::ImageFrame(self)
    }

    fn from_any(any: Any<'a>) -> (recovered: Result<Self, Any<'a>>) {
        match any {
            Any::ImageFrame(value) => Ok(value),
            other => Err(other),
        }
    }

    fn synthesize() -> (value: Option<Self>) {
        None
    }
}

impl<'a> StaticType<'a> for &'a u32 {
    open spec fn type_tag() -> TypeTag {
        TypeTag::U32Ref
    }

    open spec fn erased(self) -> Any<'a> {
        Any::U32Ref(self)
    }

    open spec fn recovered(any: Any<'a>) -> Self {
        match any {
            Any::U32Ref(value) => value,
            _ => arbitrary(),
        }
    }

    open spec fn zero_sized() -> Option<Self> {
        None
    }

    proof fn erasure_is_faithful(value: Self) {
    }

    proof fn recovery_is_faithful(any: Any<'a>) {
    }

    proof fn only_unit_is_zero_sized() {
    }

    fn tag() -> (tag: TypeTag) {
        TypeTag::U32Ref
    }

    fn into_any(self) -> (any: Any<'a>) {
        Any::U32Ref(self)
    }

    fn from_any(any: Any<'a>) -> (recovered: Result<Self, Any<'a>>) {
        match any {
            Any::U32Ref(value) => Ok(value),
            other => Err(other),
        }
    }

    fn synthesize() -> (value: Option<Self>) {
        None
    }
}

impl<'a> StaticType<'a> for &'a GraphicGroup {
    open spec fn type_tag() -> TypeTag {
        TypeTag::GraphicGroupRef
    }

    open spec fn erased(self) -> Any<'a> {
        Any::GraphicGroupRef(self)
    }

    open spec fn recovered(any: Any<'a>) -> Self {
        match any {
            Any::GraphicGroupRef(value) => value,
            _ => arbitrary(),
        }
    }

    open spec fn zero_sized() -> Option<Self> {
        None
    }

    proof fn erasure_is_faithful(value: Self) {
    }

    proof fn recovery_is_faithful(any: Any<'a>) {
    }

    proof fn only_unit_is_zero_sized() {
    }

    fn tag() -> (tag: TypeTag) {
        TypeTag::GraphicGroupRef
    }

    fn into_any(self) -> (any: Any<'a>) {
        Any::GraphicGroupRef(self)
    }

    fn from_any(any: Any<'a>) -> (recovered: Result<Self, Any<'a>>) {
        match any {
            Any::GraphicGroupRef(value) => Ok(value),
            other => Err(other),
        }
    }

    fn synthesize() -> (value: Option<Self>) {
        None
    }
}

} // verus!
