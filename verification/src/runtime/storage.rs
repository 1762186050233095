//! Handles to storage: which chunk of memory a resource lives in, and which part of it.

use vstd::prelude::*;

verus! {

/// The identity of a chunk of storage.
#[derive(Clone, Copy, Debug, PartialEq, Eq, Hash, Structural)]
pub struct StorageId {
    pub value: u64,
}

/// Which part of a chunk a resource uses.
#[derive(Clone, Copy, Debug, PartialEq, Eq, Structural)]
pub struct StorageUtilization {
    /// The offset in bytes from the start of the chunk.
    pub offset: usize,
    /// The size of the part in bytes.
    pub size: usize,
}

/// The chunk that a resource lives in, and the part of it that the resource uses.
#[derive(Clone, Copy, Debug, PartialEq, Eq, Structural)]
pub struct StorageHandle {
    /// The chunk.
    pub id: StorageId,
    /// The part of the chunk.
    pub utilization: StorageUtilization,
}

impl StorageHandle {
    /// A handle to the part `utilization` of the chunk `id`.
    pub fn new(id: StorageId, utilization: StorageUtilization) -> (r: StorageHandle)
        ensures
            r == (StorageHandle { id, utilization }),
    {
        StorageHandle { id, utilization }
    }

    /// The first byte past the part that the handle points to.
    pub open spec fn end(&self) -> int {
        self.utilization.offset + self.utilization.size
    }

    /// The size in bytes of the part that the handle points to.
    pub fn size(&self) -> (r: usize)
        ensures
            r == self.utilization.size,
    {
        self.utilization.size
    }

    /// The offset in bytes at which the part that the handle points to begins.
    pub fn offset(&self) -> (r: usize)
        ensures
            r == self.utilization.offset,
    {
        self.utilization.offset
    }

    /// The handle without its first `offset_bytes` bytes: it begins that much later, is
    /// that much smaller and ends where it ended.
    pub fn offset_start(&self, offset_bytes: usize) -> (r: StorageHandle)
        requires
            offset_bytes <= self.utilization.size,
            self.utilization.offset + offset_bytes <= usize::MAX,
        ensures
            r.id == self.id,
            r.utilization.offset == self.utilization.offset + offset_bytes,
            r.utilization.size == self.utilization.size - offset_bytes,
            r.end() == self.end(),
    {
        let utilization = StorageUtilization {
            offset: self.offset() + offset_bytes,
            size: self.size() - offset_bytes,
        };
        StorageHandle { id: self.id, utilization }
    }

    /// The handle without its last `offset_bytes` bytes: it begins where it began and
    /// is that much smaller.
    pub fn offset_end(&self, offset_bytes: usize) -> (r: StorageHandle)
        requires
            offset_bytes <= self.utilization.size,
        ensures
            r.id == self.id,
            r.utilization.offset == self.utilization.offset,
            r.utilization.size == self.utilization.size - offset_bytes,
            r.end() == self.end() - offset_bytes,
    {
        let utilization = StorageUtilization {
            offset: self.offset(),
            size: self.size() - offset_bytes,
        };
        StorageHandle { id: self.id, utilization }
    }
}

/// A storage allocates memory, hands out the resource behind a handle and frees memory.
/// What a resource is, and how kernels reach it, is the storage's own matter.
pub trait ComputeStorage {
    /// The resource behind a handle.
    type Resource;

    /// The alignment, in bytes, with which the storage allocates.
    fn alignment(&self) -> usize;

    /// The resource behind `handle`.
    fn get(&mut self, handle: &StorageHandle) -> Self::Resource;

    /// Allocates `size` bytes and returns a handle to them.
    fn allocate(&mut self, size: usize) -> StorageHandle;

    /// Frees the chunk `id`.
    fn dealloc(&mut self, id: StorageId);
}

/// What keeps an allocation alive while a resource made from it is in use.
#[derive(Clone, Copy, Debug, PartialEq, Eq, Structural)]
pub struct Binding {
    pub handle: StorageHandle,
}

/// The resource behind a binding, together with the binding that keeps it alive.
pub struct BindingResource<Storage: ComputeStorage> {
    binding: Binding,
    resource: Storage::Resource,
}

impl<Storage: ComputeStorage> BindingResource<Storage> {
    /// The binding that keeps the resource alive.
    pub closed spec fn spec_binding(&self) -> Binding {
        self.binding
    }

    /// The resource.
    pub closed spec fn spec_resource(&self) -> Storage::Resource {
        self.resource
    }

    /// The resource `resource` kept alive by `binding`.
    pub fn new(binding: Binding, resource: Storage::Resource) -> (r: Self)
        ensures
            r.spec_binding() == binding,
            r.spec_resource() == resource,
    {
        BindingResource { binding, resource }
    }

    /// The resource. It may be larger than what the binding was allocated with; only the
    /// part of the binding is sure to stay.
    pub fn resource(&self) -> (r: &Storage::Resource)
        ensures
            *r == self.spec_resource(),
    {
        &self.resource
    }
}

} // verus!
