//! Element-wise, scalar and unary operations on matrices.
//!
//! Every binary operator a matrix supports is implemented through one of two
//! generic routines: [`Matrix::element_wise`] combines two matrices of the
//! same dimensions through a closure, after a dimension check, and
//! [`Matrix::scalar_map`] combines every element with one fixed value. Each
//! concrete operator is a thin wrapper around one of these routines.

use vstd::prelude::*;
use vstd::std_specs::ops::AddSpec;
use vstd::std_specs::ops::BitAndSpec;
use vstd::std_specs::ops::BitOrSpec;
use vstd::std_specs::ops::BitXorSpec;
use vstd::std_specs::ops::DivSpec;
use vstd::std_specs::ops::MulSpec;
use vstd::std_specs::ops::NegSpec;
use vstd::std_specs::ops::NotSpec;
use vstd::std_specs::ops::RemSpec;
use vstd::std_specs::ops::ShlSpec;
use vstd::std_specs::ops::ShrSpec;
use vstd::std_specs::ops::SubSpec;

use crate::error::Error;
use crate::error::Result;
use crate::matrix::definition::Matrix;

verus! {

impl<T> Matrix<T> where T: Copy {
    /// Combine this matrix element-wise with another matrix through the
    /// closure `operation`.
    ///
    /// For element-wise operations, the dimensions of both matrices must be
    /// the same; otherwise, an [`Error::DimensionMismatch`] will be
    /// returned. On success, each element of the result is the combination
    /// of the two elements in the same position of the operands.
    pub fn element_wise<F: Fn(T, T) -> T>(&self, other: &Matrix<T>, operation: F) -> (result:
        Result<Matrix<T>>)
        requires
            self.spec_rows() == other.spec_rows() && self.spec_columns() == other.spec_columns()
                ==> forall|i: int|
                0 <= i < self@.len() ==> call_requires(operation, (#[trigger] self@[i], other@[i])),
        ensures
            result is Ok <==> self.spec_rows() == other.spec_rows() && self.spec_columns()
                == other.spec_columns(),
            result is Err ==> result == Result::<Matrix<T>>::Err(Error::DimensionMismatch),
            result is Ok ==> {
                let combined = result.unwrap();
                &&& combined.spec_rows() == self.spec_rows()
                &&& combined.spec_columns() == self.spec_columns()
                &&& combined@.len() == self@.len()
                &&& forall|i: int|
                    0 <= i < self@.len() ==> call_ensures(
                        operation,
                        (#[trigger] self@[i], other@[i]),
                        combined@[i],
                    )
            },
    {
        if self.get_rows() != other.get_rows() || self.get_columns() != other.get_columns() {
            return Err(Error::DimensionMismatch);
        }
        proof {
            use_type_invariant(self);
            use_type_invariant(other);
        }

        let own_elements: &[T] = self.as_slice();
        let other_elements: &[T] = other.as_slice();
        let length: usize = own_elements.len();
        let mut data: Vec<T> = Vec::with_capacity(length);
        let mut index: usize = 0;
        while index < length
            invariant
                self.well_formed(),
                length == self@.len(),
                own_elements@ == self@,
                other_elements@ == other@,
                other@.len() == length,
                forall|i: int|
                    0 <= i < length ==> call_requires(operation, (#[trigger] self@[i], other@[i])),
                index <= length,
                data@.len() == index,
                forall|i: int|
                    0 <= i < index ==> call_ensures(
                        operation,
                        (#[trigger] self@[i], other@[i]),
                        data@[i],
                    ),
            decreases length - index,
        {
            let own_element: T = *vstd::slice::slice_index_get(own_elements, index);
            let other_element: T = *vstd::slice::slice_index_get(other_elements, index);
            let value: T = operation(own_element, other_element);
            data.push(value);
            index += 1;
        }

        Ok(Matrix::from_raw_parts(self.get_rows(), self.get_columns(), data))
    }

    /// Map every element of this matrix through the closure `operation`,
    /// producing a new matrix of the same dimensions.
    ///
    /// This is the common core of all scalar and unary operations: the
    /// closure combines each element with a fixed value, or transforms it on
    /// its own.
    pub fn scalar_map<F: Fn(T) -> T>(&self, operation: F) -> (result: Matrix<T>)
        requires
            forall|i: int| 0 <= i < self@.len() ==> call_requires(operation, (#[trigger] self@[i],)),
        ensures
            result.spec_rows() == self.spec_rows(),
            result.spec_columns() == self.spec_columns(),
            result@.len() == self@.len(),
            forall|i: int|
                0 <= i < self@.len() ==> call_ensures(operation, (#[trigger] self@[i],), result@[i]),
    {
        proof {
            use_type_invariant(self);
        }
        let own_elements: &[T] = self.as_slice();
        let length: usize = own_elements.len();
        let mut data: Vec<T> = Vec::with_capacity(length);
        let mut index: usize = 0;
        while index < length
            invariant
                self.well_formed(),
                length == self@.len(),
                own_elements@ == self@,
                forall|i: int|
                    0 <= i < length ==> call_requires(operation, (#[trigger] self@[i],)),
                index <= length,
                data@.len() == index,
                forall|i: int|
                    0 <= i < index ==> call_ensures(operation, (#[trigger] self@[i],), data@[i]),
            decreases length - index,
        {
            let own_element: T = *vstd::slice::slice_index_get(own_elements, index);
            let value: T = operation(own_element);
            data.push(value);
            index += 1;
        }

        Matrix::from_raw_parts(self.get_rows(), self.get_columns(), data)
    }
}

impl<T> Matrix<T> where T: core::ops::Add<Output = T> + Copy {
    /// Add each element in `other` to the corresponding element in `self`,
    /// returning a new matrix; the dimensions of both matrices must be the
    /// same, or an [`Error::DimensionMismatch`] is returned.
    pub fn add(&self, other: &Matrix<T>) -> (result: Result<Matrix<T>>)
        requires
            self.spec_rows() == other.spec_rows() && self.spec_columns() == other.spec_columns()
                ==> forall|i: int| 0 <= i < self@.len() ==> (#[trigger] self@[i]).add_req(other@[i]),
        ensures
            result is Ok <==> self.spec_rows() == other.spec_rows() && self.spec_columns()
                == other.spec_columns(),
            result is Err ==> result == Result::<Matrix<T>>::Err(Error::DimensionMismatch),
            result is Ok ==> {
                let combined = result.unwrap();
                &&& combined.spec_rows() == self.spec_rows()
                &&& combined.spec_columns() == self.spec_columns()
                &&& combined@.len() == self@.len()
                &&& T::obeys_add_spec() ==> forall|i: int|
                    0 <= i < self@.len() ==> combined@[i] == (#[trigger] self@[i]).add_spec(
                        other@[i],
                    )
            },
    {
        let operation = |x: T, y: T| -> (combined: T)
            requires
                x.add_req(y),
            ensures
                T::obeys_add_spec() ==> combined == x.add_spec(y),
            { x + y };
        self.element_wise(other, operation)
    }

    /// Add the scalar value `other` to each element in `self`, returning a
    /// new matrix of the same dimensions.
    pub fn add_scalar(&self, other: T) -> (result: Matrix<T>)
        requires
            forall|i: int| 0 <= i < self@.len() ==> (#[trigger] self@[i]).add_req(other),
        ensures
            result.spec_rows() == self.spec_rows(),
            result.spec_columns() == self.spec_columns(),
            result@.len() == self@.len(),
            T::obeys_add_spec() ==> forall|i: int|
                0 <= i < self@.len() ==> result@[i] == (#[trigger] self@[i]).add_spec(other),
    {
        let operation = |x: T| -> (combined: T)
            requires
                x.add_req(other),
            ensures
                T::obeys_add_spec() ==> combined == x.add_spec(other),
            { x + other };
        self.scalar_map(operation)
    }

    /// Add the scalar value `other` to each element in `self`, in place.
    pub fn add_assign_scalar(&mut self, other: T)
        requires
            forall|i: int| 0 <= i < old(self)@.len() ==> (#[trigger] old(self)@[i]).add_req(other),
        ensures
            final(self).spec_rows() == old(self).spec_rows(),
            final(self).spec_columns() == old(self).spec_columns(),
            final(self)@.len() == old(self)@.len(),
            T::obeys_add_spec() ==> forall|i: int|
                0 <= i < old(self)@.len() ==> final(self)@[i] == (#[trigger] old(self)@[i]).add_spec(
                    other,
                ),
    {
        let updated = self.add_scalar(other);
        *self = updated;
    }
}


impl<T> Matrix<T> where T: core::ops::Sub<Output = T> + Copy {
    /// Subtract each element in `other` from the corresponding element in
    /// `self`, returning a new matrix; the dimensions of both matrices must
    /// be the same, or an [`Error::DimensionMismatch`] is returned.
    pub fn sub(&self, other: &Matrix<T>) -> (result: Result<Matrix<T>>)
        requires
            self.spec_rows() == other.spec_rows() && self.spec_columns() == other.spec_columns()
                ==> forall|i: int| 0 <= i < self@.len() ==> (#[trigger] self@[i]).sub_req(other@[i]),
        ensures
            result is Ok <==> self.spec_rows() == other.spec_rows() && self.spec_columns()
                == other.spec_columns(),
            result is Err ==> result == Result::<Matrix<T>>::Err(Error::DimensionMismatch),
            result is Ok ==> {
                let combined = result.unwrap();
                &&& combined.spec_rows() == self.spec_rows()
                &&& combined.spec_columns() == self.spec_columns()
                &&& combined@.len() == self@.len()
                &&& T::obeys_sub_spec() ==> forall|i: int|
                    0 <= i < self@.len() ==> combined@[i] == (#[trigger] self@[i]).sub_spec(
                        other@[i],
                    )
            },
    {
        let operation = |x: T, y: T| -> (combined: T)
            requires
                x.sub_req(y),
            ensures
                T::obeys_sub_spec() ==> combined == x.sub_spec(y),
            { x - y };
        self.element_wise(other, operation)
    }

    /// Subtract the scalar value `other` from each element in `self`,
    /// returning a new matrix of the same dimensions.
    pub fn sub_scalar(&self, other: T) -> (result: Matrix<T>)
        requires
            forall|i: int| 0 <= i < self@.len() ==> (#[trigger] self@[i]).sub_req(other),
        ensures
            result.spec_rows() == self.spec_rows(),
            result.spec_columns() == self.spec_columns(),
            result@.len() == self@.len(),
            T::obeys_sub_spec() ==> forall|i: int|
                0 <= i < self@.len() ==> result@[i] == (#[trigger] self@[i]).sub_spec(other),
    {
        let operation = |x: T| -> (combined: T)
            requires
                x.sub_req(other),
            ensures
                T::obeys_sub_spec() ==> combined == x.sub_spec(other),
            { x - other };
        self.scalar_map(operation)
    }

    /// Subtract the scalar value `other` from each element in `self`, in place.
    pub fn sub_assign_scalar(&mut self, other: T)
        requires
            forall|i: int| 0 <= i < old(self)@.len() ==> (#[trigger] old(self)@[i]).sub_req(other),
        ensures
            final(self).spec_rows() == old(self).spec_rows(),
            final(self).spec_columns() == old(self).spec_columns(),
            final(self)@.len() == old(self)@.len(),
            T::obeys_sub_spec() ==> forall|i: int|
                0 <= i < old(self)@.len() ==> final(self)@[i] == (#[trigger] old(self)@[i]).sub_spec(
                    other,
                ),
    {
        let updated = self.sub_scalar(other);
        *self = updated;
    }
}

impl<T> Matrix<T> where T: core::ops::Mul<Output = T> + Copy {
    /// Multiply each element in `self` with the corresponding element in
    /// `other`, i.e. calculate the Hadamard product of `self` and `other`,
    /// returning a new matrix; the dimensions of both matrices must be the
    /// same, or an [`Error::DimensionMismatch`] is returned.
    pub fn mul(&self, other: &Matrix<T>) -> (result: Result<Matrix<T>>)
        requires
            self.spec_rows() == other.spec_rows() && self.spec_columns() == other.spec_columns()
                ==> forall|i: int| 0 <= i < self@.len() ==> (#[trigger] self@[i]).mul_req(other@[i]),
        ensures
            result is Ok <==> self.spec_rows() == other.spec_rows() && self.spec_columns()
                == other.spec_columns(),
            result is Err ==> result == Result::<Matrix<T>>::Err(Error::DimensionMismatch),
            result is Ok ==> {
                let combined = result.unwrap();
                &&& combined.spec_rows() == self.spec_rows()
                &&& combined.spec_columns() == self.spec_columns()
                &&& combined@.len() == self@.len()
                &&& T::obeys_mul_spec() ==> forall|i: int|
                    0 <= i < self@.len() ==> combined@[i] == (#[trigger] self@[i]).mul_spec(
                        other@[i],
                    )
            },
    {
        let operation = |x: T, y: T| -> (combined: T)
            requires
                x.mul_req(y),
            ensures
                T::obeys_mul_spec() ==> combined == x.mul_spec(y),
            { x * y };
        self.element_wise(other, operation)
    }

    /// Multiply each element in `self` with the scalar value `other`,
    /// returning a new matrix of the same dimensions.
    pub fn mul_scalar(&self, other: T) -> (result: Matrix<T>)
        requires
            forall|i: int| 0 <= i < self@.len() ==> (#[trigger] self@[i]).mul_req(other),
        ensures
            result.spec_rows() == self.spec_rows(),
            result.spec_columns() == self.spec_columns(),
            result@.len() == self@.len(),
            T::obeys_mul_spec() ==> forall|i: int|
                0 <= i < self@.len() ==> result@[i] == (#[trigger] self@[i]).mul_spec(other),
    {
        let operation = |x: T| -> (combined: T)
            requires
                x.mul_req(other),
            ensures
                T::obeys_mul_spec() ==> combined == x.mul_spec(other),
            { x * other };
        self.scalar_map(operation)
    }

    /// Multiply each element in `self` with the scalar value `other`, in place.
    pub fn mul_assign_scalar(&mut self, other: T)
        requires
            forall|i: int| 0 <= i < old(self)@.len() ==> (#[trigger] old(self)@[i]).mul_req(other),
        ensures
            final(self).spec_rows() == old(self).spec_rows(),
            final(self).spec_columns() == old(self).spec_columns(),
            final(self)@.len() == old(self)@.len(),
            T::obeys_mul_spec() ==> forall|i: int|
                0 <= i < old(self)@.len() ==> final(self)@[i] == (#[trigger] old(self)@[i]).mul_spec(
                    other,
                ),
    {
        let updated = self.mul_scalar(other);
        *self = updated;
    }
}

impl<T> Matrix<T> where T: core::ops::Div<Output = T> + Copy {
    /// Divide each element in `self` by the corresponding element in
    /// `other`, returning a new matrix; the dimensions of both matrices must
    /// be the same, or an [`Error::DimensionMismatch`] is returned.
    pub fn div(&self, other: &Matrix<T>) -> (result: Result<Matrix<T>>)
        requires
            self.spec_rows() == other.spec_rows() && self.spec_columns() == other.spec_columns()
                ==> forall|i: int| 0 <= i < self@.len() ==> (#[trigger] self@[i]).div_req(other@[i]),
        ensures
            result is Ok <==> self.spec_rows() == other.spec_rows() && self.spec_columns()
                == other.spec_columns(),
            result is Err ==> result == Result::<Matrix<T>>::Err(Error::DimensionMismatch),
            result is Ok ==> {
                let combined = result.unwrap();
                &&& combined.spec_rows() == self.spec_rows()
                &&& combined.spec_columns() == self.spec_columns()
                &&& combined@.len() == self@.len()
                &&& T::obeys_div_spec() ==> forall|i: int|
                    0 <= i < self@.len() ==> combined@[i] == (#[trigger] self@[i]).div_spec(
                        other@[i],
                    )
            },
    {
        let operation = |x: T, y: T| -> (combined: T)
            requires
                x.div_req(y),
            ensures
                T::obeys_div_spec() ==> combined == x.div_spec(y),
            { x / y };
        self.element_wise(other, operation)
    }

    /// Divide each element in `self` by the scalar value `other`,
    /// returning a new matrix of the same dimensions.
    pub fn div_scalar(&self, other: T) -> (result: Matrix<T>)
        requires
            forall|i: int| 0 <= i < self@.len() ==> (#[trigger] self@[i]).div_req(other),
        ensures
            result.spec_rows() == self.spec_rows(),
            result.spec_columns() == self.spec_columns(),
            result@.len() == self@.len(),
            T::obeys_div_spec() ==> forall|i: int|
                0 <= i < self@.len() ==> result@[i] == (#[trigger] self@[i]).div_spec(other),
    {
        let operation = |x: T| -> (combined: T)
            requires
                x.div_req(other),
            ensures
                T::obeys_div_spec() ==> combined == x.div_spec(other),
            { x / other };
        self.scalar_map(operation)
    }

    /// Divide each element in `self` by the scalar value `other`, in place.
    pub fn div_assign_scalar(&mut self, other: T)
        requires
            forall|i: int| 0 <= i < old(self)@.len() ==> (#[trigger] old(self)@[i]).div_req(other),
        ensures
            final(self).spec_rows() == old(self).spec_rows(),
            final(self).spec_columns() == old(self).spec_columns(),
            final(self)@.len() == old(self)@.len(),
            T::obeys_div_spec() ==> forall|i: int|
                0 <= i < old(self)@.len() ==> final(self)@[i] == (#[trigger] old(self)@[i]).div_spec(
                    other,
                ),
    {
        let updated = self.div_scalar(other);
        *self = updated;
    }
}

impl<T> Matrix<T> where T: core::ops::Rem<Output = T> + Copy {
    /// Calculate the remainder when dividing each element in `self` by the
    /// corresponding element in `other`, returning a new matrix; the
    /// dimensions of both matrices must be the same, or an
    /// [`Error::DimensionMismatch`] is returned.
    pub fn rem(&self, other: &Matrix<T>) -> (result: Result<Matrix<T>>)
        requires
            self.spec_rows() == other.spec_rows() && self.spec_columns() == other.spec_columns()
                ==> forall|i: int| 0 <= i < self@.len() ==> (#[trigger] self@[i]).rem_req(other@[i]),
        ensures
            result is Ok <==> self.spec_rows() == other.spec_rows() && self.spec_columns()
                == other.spec_columns(),
            result is Err ==> result == Result::<Matrix<T>>::Err(Error::DimensionMismatch),
            result is Ok ==> {
                let combined = result.unwrap();
                &&& combined.spec_rows() == self.spec_rows()
                &&& combined.spec_columns() == self.spec_columns()
                &&& combined@.len() == self@.len()
                &&& T::obeys_rem_spec() ==> forall|i: int|
                    0 <= i < self@.len() ==> combined@[i] == (#[trigger] self@[i]).rem_spec(
                        other@[i],
                    )
            },
    {
        let operation = |x: T, y: T| -> (combined: T)
            requires
                x.rem_req(y),
            ensures
                T::obeys_rem_spec() ==> combined == x.rem_spec(y),
            { x % y };
        self.element_wise(other, operation)
    }

    /// Calculate the remainder when dividing each element in `self` by the
    /// scalar value `other`, returning a new matrix of the same dimensions.
    pub fn rem_scalar(&self, other: T) -> (result: Matrix<T>)
        requires
            forall|i: int| 0 <= i < self@.len() ==> (#[trigger] self@[i]).rem_req(other),
        ensures
            result.spec_rows() == self.spec_rows(),
            result.spec_columns() == self.spec_columns(),
            result@.len() == self@.len(),
            T::obeys_rem_spec() ==> forall|i: int|
                0 <= i < self@.len() ==> result@[i] == (#[trigger] self@[i]).rem_spec(other),
    {
        let operation = |x: T| -> (combined: T)
            requires
                x.rem_req(other),
            ensures
                T::obeys_rem_spec() ==> combined == x.rem_spec(other),
            { x % other };
        self.scalar_map(operation)
    }

    /// Calculate the remainder when dividing each element in `self` by the
    /// scalar value `other`, in place.
    pub fn rem_assign_scalar(&mut self, other: T)
        requires
            forall|i: int| 0 <= i < old(self)@.len() ==> (#[trigger] old(self)@[i]).rem_req(other),
        ensures
            final(self).spec_rows() == old(self).spec_rows(),
            final(self).spec_columns() == old(self).spec_columns(),
            final(self)@.len() == old(self)@.len(),
            T::obeys_rem_spec() ==> forall|i: int|
                0 <= i < old(self)@.len() ==> final(self)@[i] == (#[trigger] old(self)@[i]).rem_spec(
                    other,
                ),
    {
        let updated = self.rem_scalar(other);
        *self = updated;
    }
}

impl<T> Matrix<T> where T: core::ops::BitAnd<Output = T> + Copy {
    /// Calculate the bitwise AND of each element in `self` with the
    /// corresponding element in `other`, returning a new matrix; the
    /// dimensions of both matrices must be the same, or an
    /// [`Error::DimensionMismatch`] is returned.
    pub fn bitand(&self, other: &Matrix<T>) -> (result: Result<Matrix<T>>)
        requires
            self.spec_rows() == other.spec_rows() && self.spec_columns() == other.spec_columns()
                ==> forall|i: int| 0 <= i < self@.len() ==> (#[trigger] self@[i]).bitand_req(other@[i]),
        ensures
            result is Ok <==> self.spec_rows() == other.spec_rows() && self.spec_columns()
                == other.spec_columns(),
            result is Err ==> result == Result::<Matrix<T>>::Err(Error::DimensionMismatch),
            result is Ok ==> {
                let combined = result.unwrap();
                &&& combined.spec_rows() == self.spec_rows()
                &&& combined.spec_columns() == self.spec_columns()
                &&& combined@.len() == self@.len()
                &&& T::obeys_bitand_spec() ==> forall|i: int|
                    0 <= i < self@.len() ==> combined@[i] == (#[trigger] self@[i]).bitand_spec(
                        other@[i],
                    )
            },
    {
        let operation = |x: T, y: T| -> (combined: T)
            requires
                x.bitand_req(y),
            ensures
                T::obeys_bitand_spec() ==> combined == x.bitand_spec(y),
            { x & y };
        self.element_wise(other, operation)
    }

    /// Calculate the bitwise AND of each element in `self` with the scalar
    /// value `other`, returning a new matrix of the same dimensions.
    pub fn bitand_scalar(&self, other: T) -> (result: Matrix<T>)
        requires
            forall|i: int| 0 <= i < self@.len() ==> (#[trigger] self@[i]).bitand_req(other),
        ensures
            result.spec_rows() == self.spec_rows(),
            result.spec_columns() == self.spec_columns(),
            result@.len() == self@.len(),
            T::obeys_bitand_spec() ==> forall|i: int|
                0 <= i < self@.len() ==> result@[i] == (#[trigger] self@[i]).bitand_spec(other),
    {
        let operation = |x: T| -> (combined: T)
            requires
                x.bitand_req(other),
            ensures
                T::obeys_bitand_spec() ==> combined == x.bitand_spec(other),
            { x & other };
        self.scalar_map(operation)
    }

    /// Calculate the bitwise AND of each element in `self` with the scalar
    /// value `other`, in place.
    pub fn bitand_assign_scalar(&mut self, other: T)
        requires
            forall|i: int| 0 <= i < old(self)@.len() ==> (#[trigger] old(self)@[i]).bitand_req(other),
        ensures
            final(self).spec_rows() == old(self).spec_rows(),
            final(self).spec_columns() == old(self).spec_columns(),
            final(self)@.len() == old(self)@.len(),
            T::obeys_bitand_spec() ==> forall|i: int|
                0 <= i < old(self)@.len() ==> final(self)@[i] == (#[trigger] old(self)@[i]).bitand_spec(
                    other,
                ),
    {
        let updated = self.bitand_scalar(other);
        *self = updated;
    }
}

impl<T> Matrix<T> where T: core::ops::BitOr<Output = T> + Copy {
    /// Calculate the bitwise OR of each element in `self` with the
    /// corresponding element in `other`, returning a new matrix; the
    /// dimensions of both matrices must be the same, or an
    /// [`Error::DimensionMismatch`] is returned.
    pub fn bitor(&self, other: &Matrix<T>) -> (result: Result<Matrix<T>>)
        requires
            self.spec_rows() == other.spec_rows() && self.spec_columns() == other.spec_columns()
                ==> forall|i: int| 0 <= i < self@.len() ==> (#[trigger] self@[i]).bitor_req(other@[i]),
        ensures
            result is Ok <==> self.spec_rows() == other.spec_rows() && self.spec_columns()
                == other.spec_columns(),
            result is Err ==> result == Result::<Matrix<T>>::Err(Error::DimensionMismatch),
            result is Ok ==> {
                let combined = result.unwrap();
                &&& combined.spec_rows() == self.spec_rows()
                &&& combined.spec_columns() == self.spec_columns()
                &&& combined@.len() == self@.len()
                &&& T::obeys_bitor_spec() ==> forall|i: int|
                    0 <= i < self@.len() ==> combined@[i] == (#[trigger] self@[i]).bitor_spec(
                        other@[i],
                    )
            },
    {
        let operation = |x: T, y: T| -> (combined: T)
            requires
                x.bitor_req(y),
            ensures
                T::obeys_bitor_spec() ==> combined == x.bitor_spec(y),
            { x | y };
        self.element_wise(other, operation)
    }

    /// Calculate the bitwise OR of each element in `self` with the scalar
    /// value `other`, returning a new matrix of the same dimensions.
    pub fn bitor_scalar(&self, other: T) -> (result: Matrix<T>)
        requires
            forall|i: int| 0 <= i < self@.len() ==> (#[trigger] self@[i]).bitor_req(other),
        ensures
            result.spec_rows() == self.spec_rows(),
            result.spec_columns() == self.spec_columns(),
            result@.len() == self@.len(),
            T::obeys_bitor_spec() ==> forall|i: int|
                0 <= i < self@.len() ==> result@[i] == (#[trigger] self@[i]).bitor_spec(other),
    {
        let operation = |x: T| -> (combined: T)
            requires
                x.bitor_req(other),
            ensures
                T::obeys_bitor_spec() ==> combined == x.bitor_spec(other),
            { x | other };
        self.scalar_map(operation)
    }

    /// Calculate the bitwise OR of each element in `self` with the scalar
    /// value `other`, in place.
    pub fn bitor_assign_scalar(&mut self, other: T)
        requires
            forall|i: int| 0 <= i < old(self)@.len() ==> (#[trigger] old(self)@[i]).bitor_req(other),
        ensures
            final(self).spec_rows() == old(self).spec_rows(),
            final(self).spec_columns() == old(self).spec_columns(),
            final(self)@.len() == old(self)@.len(),
            T::obeys_bitor_spec() ==> forall|i: int|
                0 <= i < old(self)@.len() ==> final(self)@[i] == (#[trigger] old(self)@[i]).bitor_spec(
                    other,
                ),
    {
        let updated = self.bitor_scalar(other);
        *self = updated;
    }
}

impl<T> Matrix<T> where T: core::ops::BitXor<Output = T> + Copy {
    /// Calculate the bitwise XOR of each element in `self` with the
    /// corresponding element in `other`, returning a new matrix; the
    /// dimensions of both matrices must be the same, or an
    /// [`Error::DimensionMismatch`] is returned.
    pub fn bitxor(&self, other: &Matrix<T>) -> (result: Result<Matrix<T>>)
        requires
            self.spec_rows() == other.spec_rows() && self.spec_columns() == other.spec_columns()
                ==> forall|i: int| 0 <= i < self@.len() ==> (#[trigger] self@[i]).bitxor_req(other@[i]),
        ensures
            result is Ok <==> self.spec_rows() == other.spec_rows() && self.spec_columns()
                == other.spec_columns(),
            result is Err ==> result == Result::<Matrix<T>>::Err(Error::DimensionMismatch),
            result is Ok ==> {
                let combined = result.unwrap();
                &&& combined.spec_rows() == self.spec_rows()
                &&& combined.spec_columns() == self.spec_columns()
                &&& combined@.len() == self@.len()
                &&& T::obeys_bitxor_spec() ==> forall|i: int|
                    0 <= i < self@.len() ==> combined@[i] == (#[trigger] self@[i]).bitxor_spec(
                        other@[i],
                    )
            },
    {
        let operation = |x: T, y: T| -> (combined: T)
            requires
                x.bitxor_req(y),
            ensures
                T::obeys_bitxor_spec() ==> combined == x.bitxor_spec(y),
            { x ^ y };
        self.element_wise(other, operation)
    }

    /// Calculate the bitwise XOR of each element in `self` with the scalar
    /// value `other`, returning a new matrix of the same dimensions.
    pub fn bitxor_scalar(&self, other: T) -> (result: Matrix<T>)
        requires
            forall|i: int| 0 <= i < self@.len() ==> (#[trigger] self@[i]).bitxor_req(other),
        ensures
            result.spec_rows() == self.spec_rows(),
            result.spec_columns() == self.spec_columns(),
            result@.len() == self@.len(),
            T::obeys_bitxor_spec() ==> forall|i: int|
                0 <= i < self@.len() ==> result@[i] == (#[trigger] self@[i]).bitxor_spec(other),
    {
        let operation = |x: T| -> (combined: T)
            requires
                x.bitxor_req(other),
            ensures
                T::obeys_bitxor_spec() ==> combined == x.bitxor_spec(other),
            { x ^ other };
        self.scalar_map(operation)
    }

    /// Calculate the bitwise XOR of each element in `self` with the scalar
    /// value `other`, in place.
    pub fn bitxor_assign_scalar(&mut self, other: T)
        requires
            forall|i: int| 0 <= i < old(self)@.len() ==> (#[trigger] old(self)@[i]).bitxor_req(other),
        ensures
            final(self).spec_rows() == old(self).spec_rows(),
            final(self).spec_columns() == old(self).spec_columns(),
            final(self)@.len() == old(self)@.len(),
            T::obeys_bitxor_spec() ==> forall|i: int|
                0 <= i < old(self)@.len() ==> final(self)@[i] == (#[trigger] old(self)@[i]).bitxor_spec(
                    other,
                ),
    {
        let updated = self.bitxor_scalar(other);
        *self = updated;
    }
}

impl<T> Matrix<T> where T: core::ops::Shl<Output = T> + Copy {
    /// Bitwise shift each element in `self` to the left by the corresponding
    /// element in `other`, returning a new matrix; the dimensions of both
    /// matrices must be the same, or an [`Error::DimensionMismatch`] is
    /// returned.
    pub fn shl(&self, other: &Matrix<T>) -> (result: Result<Matrix<T>>)
        requires
            self.spec_rows() == other.spec_rows() && self.spec_columns() == other.spec_columns()
                ==> forall|i: int| 0 <= i < self@.len() ==> (#[trigger] self@[i]).shl_req(other@[i]),
        ensures
            result is Ok <==> self.spec_rows() == other.spec_rows() && self.spec_columns()
                == other.spec_columns(),
            result is Err ==> result == Result::<Matrix<T>>::Err(Error::DimensionMismatch),
            result is Ok ==> {
                let combined = result.unwrap();
                &&& combined.spec_rows() == self.spec_rows()
                &&& combined.spec_columns() == self.spec_columns()
                &&& combined@.len() == self@.len()
                &&& T::obeys_shl_spec() ==> forall|i: int|
                    0 <= i < self@.len() ==> combined@[i] == (#[trigger] self@[i]).shl_spec(
                        other@[i],
                    )
            },
    {
        let operation = |x: T, y: T| -> (combined: T)
            requires
                x.shl_req(y),
            ensures
                T::obeys_shl_spec() ==> combined == x.shl_spec(y),
            { core::ops::Shl::shl(x, y) };
        self.element_wise(other, operation)
    }

    /// Bitwise shift each element in `self` to the left by the scalar value
    /// `other`, returning a new matrix of the same dimensions.
    pub fn shl_scalar(&self, other: T) -> (result: Matrix<T>)
        requires
            forall|i: int| 0 <= i < self@.len() ==> (#[trigger] self@[i]).shl_req(other),
        ensures
            result.spec_rows() == self.spec_rows(),
            result.spec_columns() == self.spec_columns(),
            result@.len() == self@.len(),
            T::obeys_shl_spec() ==> forall|i: int|
                0 <= i < self@.len() ==> result@[i] == (#[trigger] self@[i]).shl_spec(other),
    {
        let operation = |x: T| -> (combined: T)
            requires
                x.shl_req(other),
            ensures
                T::obeys_shl_spec() ==> combined == x.shl_spec(other),
            { core::ops::Shl::shl(x, other) };
        self.scalar_map(operation)
    }

    /// Bitwise shift each element in `self` to the left by the scalar value
    /// `other`, in place.
    pub fn shl_assign_scalar(&mut self, other: T)
        requires
            forall|i: int| 0 <= i < old(self)@.len() ==> (#[trigger] old(self)@[i]).shl_req(other),
        ensures
            final(self).spec_rows() == old(self).spec_rows(),
            final(self).spec_columns() == old(self).spec_columns(),
            final(self)@.len() == old(self)@.len(),
            T::obeys_shl_spec() ==> forall|i: int|
                0 <= i < old(self)@.len() ==> final(self)@[i] == (#[trigger] old(self)@[i]).shl_spec(
                    other,
                ),
    {
        let updated = self.shl_scalar(other);
        *self = updated;
    }
}

impl<T> Matrix<T> where T: core::ops::Shr<Output = T> + Copy {
    /// Bitwise shift each element in `self` to the right by the
    /// corresponding element in `other`, returning a new matrix; the
    /// dimensions of both matrices must be the same, or an
    /// [`Error::DimensionMismatch`] is returned.
    pub fn shr(&self, other: &Matrix<T>) -> (result: Result<Matrix<T>>)
        requires
            self.spec_rows() == other.spec_rows() && self.spec_columns() == other.spec_columns()
                ==> forall|i: int| 0 <= i < self@.len() ==> (#[trigger] self@[i]).shr_req(other@[i]),
        ensures
            result is Ok <==> self.spec_rows() == other.spec_rows() && self.spec_columns()
                == other.spec_columns(),
            result is Err ==> result == Result::<Matrix<T>>::Err(Error::DimensionMismatch),
            result is Ok ==> {
                let combined = result.unwrap();
                &&& combined.spec_rows() == self.spec_rows()
                &&& combined.spec_columns() == self.spec_columns()
                &&& combined@.len() == self@.len()
                &&& T::obeys_shr_spec() ==> forall|i: int|
                    0 <= i < self@.len() ==> combined@[i] == (#[trigger] self@[i]).shr_spec(
                        other@[i],
                    )
            },
    {
        let operation = |x: T, y: T| -> (combined: T)
            requires
                x.shr_req(y),
            ensures
                T::obeys_shr_spec() ==> combined == x.shr_spec(y),
            { core::ops::Shr::shr(x, y) };
        self.element_wise(other, operation)
    }

    /// Bitwise shift each element in `self` to the right by the scalar
    /// value `other`, returning a new matrix of the same dimensions.
    pub fn shr_scalar(&self, other: T) -> (result: Matrix<T>)
        requires
            forall|i: int| 0 <= i < self@.len() ==> (#[trigger] self@[i]).shr_req(other),
        ensures
            result.spec_rows() == self.spec_rows(),
            result.spec_columns() == self.spec_columns(),
            result@.len() == self@.len(),
            T::obeys_shr_spec() ==> forall|i: int|
                0 <= i < self@.len() ==> result@[i] == (#[trigger] self@[i]).shr_spec(other),
    {
        let operation = |x: T| -> (combined: T)
            requires
                x.shr_req(other),
            ensures
                T::obeys_shr_spec() ==> combined == x.shr_spec(other),
            { core::ops::Shr::shr(x, other) };
        self.scalar_map(operation)
    }

    /// Bitwise shift each element in `self` to the right by the scalar
    /// value `other`, in place.
    pub fn shr_assign_scalar(&mut self, other: T)
        requires
            forall|i: int| 0 <= i < old(self)@.len() ==> (#[trigger] old(self)@[i]).shr_req(other),
        ensures
            final(self).spec_rows() == old(self).spec_rows(),
            final(self).spec_columns() == old(self).spec_columns(),
            final(self)@.len() == old(self)@.len(),
            T::obeys_shr_spec() ==> forall|i: int|
                0 <= i < old(self)@.len() ==> final(self)@[i] == (#[trigger] old(self)@[i]).shr_spec(
                    other,
                ),
    {
        let updated = self.shr_scalar(other);
        *self = updated;
    }
}

impl<T> Matrix<T> where T: core::ops::Neg<Output = T> + Copy {
    /// Negate each element of the matrix, returning a new matrix of the same
    /// dimensions.
    pub fn neg(&self) -> (result: Matrix<T>)
        requires
            forall|i: int| 0 <= i < self@.len() ==> (#[trigger] self@[i]).neg_req(),
        ensures
            result.spec_rows() == self.spec_rows(),
            result.spec_columns() == self.spec_columns(),
            result@.len() == self@.len(),
            T::obeys_neg_spec() ==> forall|i: int|
                0 <= i < self@.len() ==> result@[i] == (#[trigger] self@[i]).neg_spec(),
    {
        let operation = |x: T| -> (transformed: T)
            requires
                x.neg_req(),
            ensures
                T::obeys_neg_spec() ==> transformed == x.neg_spec(),
            { core::ops::Neg::neg(x) };
        self.scalar_map(operation)
    }
}

impl<T> Matrix<T> where T: core::ops::Not<Output = T> + Copy {
    /// Logically or bitwise negate each element of the matrix, returning a new matrix of the same
    /// dimensions.
    pub fn not(&self) -> (result: Matrix<T>)
        requires
            forall|i: int| 0 <= i < self@.len() ==> (#[trigger] self@[i]).not_req(),
        ensures
            result.spec_rows() == self.spec_rows(),
            result.spec_columns() == self.spec_columns(),
            result@.len() == self@.len(),
            T::obeys_not_spec() ==> forall|i: int|
                0 <= i < self@.len() ==> result@[i] == (#[trigger] self@[i]).not_spec(),
    {
        let operation = |x: T| -> (transformed: T)
            requires
                x.not_req(),
            ensures
                T::obeys_not_spec() ==> transformed == x.not_spec(),
            { core::ops::Not::not(x) };
        self.scalar_map(operation)
    }
}

/// Law: element-wise adding a matrix and then element-wise subtracting the
/// same matrix again restores the original matrix exactly.
///
/// `sum` is the matrix [`Matrix::add`] returns for `m` and `other`, and
/// `difference` is the matrix [`Matrix::sub`] returns for `sum` and `other`,
/// as their contracts describe them; every element-wise sum must stay within
/// the limits of the element type. The contents of `difference` then equal
/// the contents of `m`.
pub proof fn lemma_add_then_sub_restores(
    m: Matrix<i64>,
    other: Matrix<i64>,
    sum: Matrix<i64>,
    difference: Matrix<i64>,
)
    requires
        m.well_formed(),
        m.spec_rows() == other.spec_rows(),
        m.spec_columns() == other.spec_columns(),
        sum@.len() == m@.len(),
        difference@.len() == m@.len(),
        other@.len() == m@.len(),
        forall|i: int| 0 <= i < m@.len() ==> (#[trigger] m@[i]).add_req(other@[i]),
        forall|i: int| 0 <= i < m@.len() ==> #[trigger] sum@[i] == m@[i].add_spec(other@[i]),
        forall|i: int|
            0 <= i < m@.len() ==> #[trigger] difference@[i] == sum@[i].sub_spec(other@[i]),
    ensures
        difference@ == m@,
{
    assert forall|i: int| 0 <= i < m@.len() implies difference@[i] == m@[i] by {
        assert(sum@[i] == m@[i] + other@[i]);
    };
    assert(difference@ =~= m@);
}

} // verus!
