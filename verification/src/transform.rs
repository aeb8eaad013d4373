//! Transforms, by how they are made rather than by their entries.
//!
//! The core composes transforms and hands them to the host, which alone
//! turns them into matrices. A model transform is therefore kept as the list
//! of its factors, each a uniform scaling or any 4x4 matrix given by its
//! entries, and a matrix that a shader receives as the recipe from which the
//! host computes it.

use crate::lists::append_copy;
use crate::lists::copy_of;
use crate::scalar::Scalar;
use vstd::prelude::*;

verus! {

/// A point in space.
#[derive(Clone, Copy, Debug, PartialEq, Eq, Structural)]
pub struct Point {
    pub x: Scalar,
    pub y: Scalar,
    pub z: Scalar,
}

/// The rigid transform of a right-handed camera at `eye` that looks at
/// `target`, with the world's Y axis pointing up.
#[derive(Clone, Copy, Debug, PartialEq, Eq, Structural)]
pub struct LookAt {
    pub eye: Point,
    pub target: Point,
}

/// A perspective projection.
#[derive(Clone, Copy, Debug, PartialEq, Eq, Structural)]
pub struct Perspective {
    pub aspect_ratio: Scalar,
    pub vertical_fov: Scalar,
    pub near: Scalar,
    pub far: Scalar,
}

/// One factor of a model transform.
#[derive(Clone, Copy, Debug, PartialEq, Eq)]
pub enum Factor {
    /// The uniform scaling by `factor` about the origin, with no
    /// translation and no rotation.
    Scaling { factor: Scalar },
    /// The affine transform with the given 4x4 matrix, whose entries are
    /// listed column by column.
    Matrix { entries: [Scalar; 16] },
}

/// A model transform: the product of its factors, written from left to
/// right, so that the last factor is applied to a point first. The empty
/// product is the identity.
#[derive(Clone, Debug, PartialEq, Eq)]
pub struct Transform {
    factors: Vec<Factor>,
}

impl View for Transform {
    type V = Seq<Factor>;

    closed spec fn view(&self) -> Seq<Factor> {
        self.factors@
    }
}

impl Transform {
    /// The identity.
    pub fn identity() -> (t: Transform)
        ensures
            t@ == Seq::<Factor>::empty(),
    {
        Transform { factors: Vec::new() }
    }

    /// The uniform scaling by `factor`, with no translation and no rotation.
    pub fn scaling(factor: Scalar) -> (t: Transform)
        ensures
            t@ == seq![Factor::Scaling { factor }],
    {
        let mut factors: Vec<Factor> = Vec::new();
        factors.push(Factor::Scaling { factor });
        assert(factors@ =~= seq![Factor::Scaling { factor }]);
        Transform { factors }
    }

    /// The affine transform with the given 4x4 matrix, whose entries are
    /// listed column by column.
    pub fn matrix(entries: [Scalar; 16]) -> (t: Transform)
        ensures
            t@ == seq![Factor::Matrix { entries }],
    {
        let mut factors: Vec<Factor> = Vec::new();
        factors.push(Factor::Matrix { entries });
        assert(factors@ =~= seq![Factor::Matrix { entries }]);
        Transform { factors }
    }

    /// The product `self * right`: `right` is applied to a point first.
    pub fn times(&self, right: &Transform) -> (product: Transform)
        ensures
            product@ == self@ + right@,
    {
        let mut factors: Vec<Factor> = copy_of(&self.factors);
        append_copy(&mut factors, &right.factors);
        Transform { factors }
    }

    /// A copy of the transform.
    pub fn duplicate(&self) -> (copy: Transform)
        ensures
            copy@ == self@,
    {
        Transform { factors: copy_of(&self.factors) }
    }

    /// The factors, from left to right.
    pub fn factors(&self) -> (factors: &Vec<Factor>)
        ensures
            factors@ == self@,
    {
        &self.factors
    }
}

/// A matrix for a shader, as the recipe from which the host computes it.
#[derive(Clone, Debug, PartialEq, Eq)]
pub enum Matrix {
    /// The 4x4 matrix of the projection.
    Projection { projection: Perspective },
    /// The 4x4 matrix of `view * model`.
    ModelView { view: LookAt, model: Transform },
    /// The 3x3 matrix that takes normals along with `view * model`: the
    /// inverse transpose of its upper left 3x3 part.
    Normal { view: LookAt, model: Transform },
}

/// What a [`Matrix`] stands for.
pub enum MatrixView {
    Projection { projection: Perspective },
    ModelView { view: LookAt, model: Seq<Factor> },
    Normal { view: LookAt, model: Seq<Factor> },
}

impl View for Matrix {
    type V = MatrixView;

    open spec fn view(&self) -> MatrixView {
        match *self {
            Matrix::Projection { projection } => MatrixView::Projection { projection },
            Matrix::ModelView { view, model } => MatrixView::ModelView { view, model: model@ },
            Matrix::Normal { view, model } => MatrixView::Normal { view, model: model@ },
        }
    }
}

} // verus!
