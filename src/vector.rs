//! Constructors of small row and column vectors from their components.
use vstd::prelude::*;

use crate::matrix::{Matrix, RowVector, Vector};

verus! {

impl<T> RowVector<T, 1> {
    /// Creates a new vector from the given components.
    pub fn new(x: T) -> (r: Self)
        ensures
            r@ == seq![x],
    {
        let mut data: Vec<T> = Vec::new();
        data.push(x);
        assert(data@ =~= seq![x]);
        Matrix::from_vec(data)
    }
}

impl<T> RowVector<T, 2> {
    /// Creates a new vector from the given components.
    pub fn new(x: T, y: T) -> (r: Self)
        ensures
            r@ == seq![x, y],
    {
        let mut data: Vec<T> = Vec::new();
        data.push(x);
        data.push(y);
        assert(data@ =~= seq![x, y]);
        Matrix::from_vec(data)
    }
}

impl<T> RowVector<T, 3> {
    /// Creates a new vector from the given components.
    pub fn new(x: T, y: T, z: T) -> (r: Self)
        ensures
            r@ == seq![x, y, z],
    {
        let mut data: Vec<T> = Vec::new();
        data.push(x);
        data.push(y);
        data.push(z);
        assert(data@ =~= seq![x, y, z]);
        Matrix::from_vec(data)
    }
}

impl<T> RowVector<T, 4> {
    /// Creates a new vector from the given components.
    pub fn new(x: T, y: T, z: T, w: T) -> (r: Self)
        ensures
            r@ == seq![x, y, z, w],
    {
        let mut data: Vec<T> = Vec::new();
        data.push(x);
        data.push(y);
        data.push(z);
        data.push(w);
        assert(data@ =~= seq![x, y, z, w]);
        Matrix::from_vec(data)
    }
}

impl<T> RowVector<T, 5> {
    /// Creates a new vector from the given components.
    pub fn new(x: T, y: T, z: T, w: T, a: T) -> (r: Self)
        ensures
            r@ == seq![x, y, z, w, a],
    {
        let mut data: Vec<T> = Vec::new();
        data.push(x);
        data.push(y);
        data.push(z);
        data.push(w);
        data.push(a);
        assert(data@ =~= seq![x, y, z, w, a]);
        Matrix::from_vec(data)
    }
}

impl<T> RowVector<T, 6> {
    /// Creates a new vector from the given components.
    pub fn new(x: T, y: T, z: T, w: T, a: T, b: T) -> (r: Self)
        ensures
            r@ == seq![x, y, z, w, a, b],
    {
        let mut data: Vec<T> = Vec::new();
        data.push(x);
        data.push(y);
        data.push(z);
        data.push(w);
        data.push(a);
        data.push(b);
        assert(data@ =~= seq![x, y, z, w, a, b]);
        Matrix::from_vec(data)
    }
}

impl<T> Vector<T, 2> {
    /// Creates a new vector from the given components.
    pub fn new(x: T, y: T) -> (r: Self)
        ensures
            r@ == seq![x, y],
    {
        let mut data: Vec<T> = Vec::new();
        data.push(x);
        data.push(y);
        assert(data@ =~= seq![x, y]);
        Matrix::from_vec(data)
    }
}

impl<T> Vector<T, 3> {
    /// Creates a new vector from the given components.
    pub fn new(x: T, y: T, z: T) -> (r: Self)
        ensures
            r@ == seq![x, y, z],
    {
        let mut data: Vec<T> = Vec::new();
        data.push(x);
        data.push(y);
        data.push(z);
        assert(data@ =~= seq![x, y, z]);
        Matrix::from_vec(data)
    }
}

impl<T> Vector<T, 4> {
    /// Creates a new vector from the given components.
    pub fn new(x: T, y: T, z: T, w: T) -> (r: Self)
        ensures
            r@ == seq![x, y, z, w],
    {
        let mut data: Vec<T> = Vec::new();
        data.push(x);
        data.push(y);
        data.push(z);
        data.push(w);
        assert(data@ =~= seq![x, y, z, w]);
        Matrix::from_vec(data)
    }
}

impl<T> Vector<T, 5> {
    /// Creates a new vector from the given components.
    pub fn new(x: T, y: T, z: T, w: T, a: T) -> (r: Self)
        ensures
            r@ == seq![x, y, z, w, a],
    {
        let mut data: Vec<T> = Vec::new();
        data.push(x);
        data.push(y);
        data.push(z);
        data.push(w);
        data.push(a);
        assert(data@ =~= seq![x, y, z, w, a]);
        Matrix::from_vec(data)
    }
}

impl<T> Vector<T, 6> {
    /// Creates a new vector from the given components.
    pub fn new(x: T, y: T, z: T, w: T, a: T, b: T) -> (r: Self)
        ensures
            r@ == seq![x, y, z, w, a, b],
    {
        let mut data: Vec<T> = Vec::new();
        data.push(x);
        data.push(y);
        data.push(z);
        data.push(w);
        data.push(a);
        data.push(b);
        assert(data@ =~= seq![x, y, z, w, a, b]);
        Matrix::from_vec(data)
    }
}

} // verus!
