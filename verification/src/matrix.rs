use vstd::prelude::*;
use vstd::layout::size_of;

use crate::buffer::{BufferModel, MetalBuffer};
use crate::options::MpsDataType;

verus! {

/// The shape of a batch of matrices as Metal Performance Shaders sees it.
pub struct DescriptorModel {
    pub rows: nat,
    pub columns: nat,
    pub matrices: nat,
    pub row_bytes: nat,
    pub matrix_bytes: nat,
    pub data_type: MpsDataType,
}

/// The shape a descriptor built from these arguments holds.
pub open spec fn descriptor_model(
    rows: usize,
    columns: usize,
    matrices: usize,
    row_bytes: usize,
    matrix_bytes: usize,
    data_type: MpsDataType,
) -> DescriptorModel {
    DescriptorModel {
        rows: rows as nat,
        columns: columns as nat,
        matrices: matrices as nat,
        row_bytes: row_bytes as nat,
        matrix_bytes: matrix_bytes as nat,
        data_type,
    }
}

/// Describes `matrices` matrices of `rows` x `columns` elements of
/// `data_type`, each row `row_bytes` bytes apart and each matrix
/// `matrix_bytes` bytes apart.
pub struct MpsMatrixDescriptor {
    rows: usize,
    columns: usize,
    matrices: usize,
    row_bytes: usize,
    matrix_bytes: usize,
    data_type: MpsDataType,
}

impl View for MpsMatrixDescriptor {
    type V = DescriptorModel;

    closed spec fn view(&self) -> DescriptorModel {
        descriptor_model(
            self.rows,
            self.columns,
            self.matrices,
            self.row_bytes,
            self.matrix_bytes,
            self.data_type,
        )
    }
}

impl MpsMatrixDescriptor {
    /// A descriptor holding exactly the given shape.
    pub fn new(
        rows: usize,
        columns: usize,
        matrices: usize,
        row_bytes: usize,
        matrix_bytes: usize,
        data_type: MpsDataType,
    ) -> (desc: MpsMatrixDescriptor)
        ensures
            desc@ == descriptor_model(rows, columns, matrices, row_bytes, matrix_bytes, data_type),
    {
        MpsMatrixDescriptor { rows, columns, matrices, row_bytes, matrix_bytes, data_type }
    }

    /// Number of rows of each matrix.
    pub fn rows(&self) -> (r: usize)
        ensures
            r as nat == self@.rows,
    {
        self.rows
    }

    /// Number of columns of each matrix.
    pub fn columns(&self) -> (c: usize)
        ensures
            c as nat == self@.columns,
    {
        self.columns
    }

    /// Number of matrices described.
    pub fn matrices(&self) -> (m: usize)
        ensures
            m as nat == self@.matrices,
    {
        self.matrices
    }

    /// Stride in bytes between consecutive rows.
    pub fn row_bytes(&self) -> (b: usize)
        ensures
            b as nat == self@.row_bytes,
    {
        self.row_bytes
    }

    /// Stride in bytes between consecutive matrices.
    pub fn matrix_bytes(&self) -> (b: usize)
        ensures
            b as nat == self@.matrix_bytes,
    {
        self.matrix_bytes
    }

    /// Element type of the matrices.
    pub fn data_type(&self) -> (t: MpsDataType)
        ensures
            t == self@.data_type,
    {
        self.data_type
    }
}

/// Each accessor of a descriptor gives back the argument of the same name
/// that the descriptor was built from.
pub proof fn descriptor_reads_back(
    desc: MpsMatrixDescriptor,
    rows: usize,
    columns: usize,
    matrices: usize,
    row_bytes: usize,
    matrix_bytes: usize,
    data_type: MpsDataType,
)
    requires
        desc@ == descriptor_model(rows, columns, matrices, row_bytes, matrix_bytes, data_type),
    ensures
        desc@.rows == rows,
        desc@.columns == columns,
        desc@.matrices == matrices,
        desc@.row_bytes == row_bytes,
        desc@.matrix_bytes == matrix_bytes,
        desc@.data_type == data_type,
{
}

/// What a matrix is made of: the buffer holding its elements and the
/// descriptor giving their layout.
pub struct MatrixModel {
    pub buffer: BufferModel,
    pub descriptor: DescriptorModel,
}

/// A batch of matrices stored in a Metal buffer with the layout of a
/// descriptor.
pub struct MpsMatrix {
    buffer: MetalBuffer,
    descriptor: MpsMatrixDescriptor,
}

impl View for MpsMatrix {
    type V = MatrixModel;

    closed spec fn view(&self) -> MatrixModel {
        MatrixModel { buffer: self.buffer@, descriptor: self.descriptor@ }
    }
}

impl MpsMatrix {
    /// The matrix whose elements live in `buffer` laid out as `descriptor` says.
    pub fn new(buffer: MetalBuffer, descriptor: MpsMatrixDescriptor) -> (m: MpsMatrix)
        ensures
            m@ == (MatrixModel { buffer: buffer@, descriptor: descriptor@ }),
    {
        MpsMatrix { buffer, descriptor }
    }

    /// The buffer holding the elements.
    pub fn buffer(&self) -> (b: &MetalBuffer)
        ensures
            b@ == self@.buffer,
    {
        &self.buffer
    }

    /// The layout of the elements.
    pub fn descriptor(&self) -> (d: &MpsMatrixDescriptor)
        ensures
            d@ == self@.descriptor,
    {
        &self.descriptor
    }

    /// The number of elements of type `T` in the matrix's contents, which
    /// are the contents of its buffer.
    pub fn contents_len<T>(&self) -> (n: usize)
        requires
            size_of::<T>() > 0,
        ensures
            n as nat == crate::buffer::element_count(self@.buffer.nbytes, size_of::<T>()),
            n * size_of::<T>() <= self@.buffer.nbytes,
            self@.buffer.nbytes < (n + 1) * size_of::<T>(),
    {
        self.buffer.contents_len::<T>()
    }
}

/// A matrix built from a buffer and a descriptor keeps both unchanged: its
/// buffer has the length and options of the one given, its descriptor the
/// shape of the one given.
pub proof fn matrix_keeps_its_parts(m: MpsMatrix, buffer: MetalBuffer, descriptor: MpsMatrixDescriptor)
    requires
        m@ == (MatrixModel { buffer: buffer@, descriptor: descriptor@ }),
    ensures
        m@.buffer.nbytes == buffer@.nbytes,
        m@.buffer.options == buffer@.options,
        m@.descriptor == descriptor@,
{
}

} // verus!
