//! The context data registry: host objects registered with one bridged task,
//! reachable by key only while a host call of that task is running.
use vstd::prelude::*;

verus! {

/// Proof that control is inside a host call made for one task. Only the
/// task's registry hands one out.
#[derive(Clone, Copy, Debug)]
pub struct HostCallToken {
    task: u64,
}

impl HostCallToken {
    /// The task whose host call this token stands for.
    pub closed spec fn task(&self) -> u64 {
        self.task
    }
}

/// A key naming one object of one task's registry. Only the registry's
/// `register_context_data` makes one.
#[derive(Clone, Copy, Debug, PartialEq, Eq, Structural)]
pub struct ContextKey {
    task: u64,
    index: usize,
}

impl ContextKey {
    /// The task whose registry issued the key.
    pub closed spec fn task(&self) -> u64 {
        self.task
    }

    /// The position of the object in that registry.
    pub closed spec fn index(&self) -> usize {
        self.index
    }
}

/// Hands out registries with ids that were never handed out before.
pub struct RegistryAllocator {
    next: u64,
}

impl RegistryAllocator {
    /// Whether a registry with this id was handed out.
    pub closed spec fn has_issued(&self, id: u64) -> bool {
        id < self.next
    }

    /// Whether another registry can still be handed out.
    pub closed spec fn can_issue(&self) -> bool {
        self.next < u64::MAX
    }

    /// An allocator that has handed out nothing.
    pub fn new() -> (r: RegistryAllocator)
        ensures
            forall|id: u64| !r.has_issued(id),
            r.can_issue(),
    {
        RegistryAllocator { next: 0 }
    }

    /// Whether another registry can still be handed out.
    pub fn has_room(&self) -> (r: bool)
        ensures
            r == self.can_issue(),
    {
        self.next < u64::MAX
    }

    /// An empty registry for a new task, whose id differs from that of every
    /// registry handed out before.
    pub fn new_registry<T>(&mut self) -> (r: ContextRegistry<T>)
        requires
            old(self).can_issue(),
        ensures
            r.wf(),
            !old(self).has_issued(r.task_id()),
            final(self).has_issued(r.task_id()),
            forall|id: u64| old(self).has_issued(id) ==> final(self).has_issued(id),
            forall|id: u64| final(self).has_issued(id) ==> old(self).has_issued(id) || id == r.task_id(),
            r.objects() == Seq::<T>::empty(),
            !r.is_completed(),
    {
        let id = self.next;
        self.next = self.next + 1;
        ContextRegistry::new(id)
    }
}

/// Why a registry refused a request.
#[derive(Clone, Copy, Debug, PartialEq, Eq, Structural)]
pub enum RegistryError {
    /// The token belongs to a host call of another task.
    ForeignToken,
    /// The key was issued by another task's registry.
    ForeignKey,
    /// No object was registered under the key.
    UnknownKey,
    /// The task has completed and its objects were released.
    TaskCompleted,
}

/// The host objects of one task, released when the task completes.
pub struct ContextRegistry<T> {
    task: u64,
    entries: Vec<T>,
    completed: bool,
}

impl<T> ContextRegistry<T> {
    pub closed spec fn task_id(&self) -> u64 {
        self.task
    }

    pub closed spec fn objects(&self) -> Seq<T> {
        self.entries@
    }

    pub closed spec fn is_completed(&self) -> bool {
        self.completed
    }

    /// A completed registry holds nothing.
    pub closed spec fn wf(&self) -> bool {
        self.completed ==> self.entries@.len() == 0
    }

    /// Why a lookup or a registration with this token fails, if it does.
    pub open spec fn token_error(&self, token: HostCallToken) -> Option<RegistryError> {
        if self.is_completed() {
            Some(RegistryError::TaskCompleted)
        } else if token.task() != self.task_id() {
            Some(RegistryError::ForeignToken)
        } else {
            None
        }
    }

    /// The result of looking `key` up under `token`.
    pub open spec fn lookup(&self, token: HostCallToken, key: ContextKey) -> Result<T, RegistryError> {
        match self.token_error(token) {
            Some(e) => Err(e),
            None => if key.task() != self.task_id() {
                Err(RegistryError::ForeignKey)
            } else if key.index() >= self.objects().len() {
                Err(RegistryError::UnknownKey)
            } else {
                Ok(self.objects()[key.index() as int])
            },
        }
    }

    fn new(task: u64) -> (r: ContextRegistry<T>)
        ensures
            r.wf(),
            r.task_id() == task,
            r.objects() == Seq::<T>::empty(),
            !r.is_completed(),
    {
        ContextRegistry { task, entries: Vec::new(), completed: false }
    }

    /// A token for a host call running on behalf of this registry's task.
    pub fn host_call(&self) -> (r: HostCallToken)
        ensures
            r.task() == self.task_id(),
    {
        HostCallToken { task: self.task }
    }

    /// Stores `object` and returns the key under which the task finds it.
    pub fn register_context_data(&mut self, token: HostCallToken, object: T) -> (r: Result<ContextKey, RegistryError>)
        requires
            old(self).wf(),
        ensures
            final(self).wf(),
            final(self).task_id() == old(self).task_id(),
            final(self).is_completed() == old(self).is_completed(),
            match old(self).token_error(token) {
                Some(e) => r == Err::<ContextKey, RegistryError>(e) && final(self).objects() == old(self).objects(),
                None => r matches Ok(k) && k.task() == old(self).task_id()
                    && k.index() as int == old(self).objects().len()
                    && final(self).objects() == old(self).objects().push(object),
            },
    {
        if self.completed {
            return Err(RegistryError::TaskCompleted);
        }
        if token.task != self.task {
            return Err(RegistryError::ForeignToken);
        }
        let index = self.entries.len();
        self.entries.push(object);
        Ok(ContextKey { task: self.task, index })
    }

    /// The object stored under `key`, or why it cannot be had.
    pub fn get_context_data(&self, token: HostCallToken, key: ContextKey) -> (r: Result<&T, RegistryError>)
        requires
            self.wf(),
        ensures
            match r {
                Ok(v) => self.lookup(token, key) == Ok::<T, RegistryError>(*v),
                Err(e) => self.lookup(token, key) == Err::<T, RegistryError>(e),
            },
    {
        if self.completed {
            return Err(RegistryError::TaskCompleted);
        }
        if token.task != self.task {
            return Err(RegistryError::ForeignToken);
        }
        if key.task != self.task {
            return Err(RegistryError::ForeignKey);
        }
        if key.index >= self.entries.len() {
            return Err(RegistryError::UnknownKey);
        }
        Ok(&self.entries[key.index])
    }

    /// Marks the task completed and releases every object it registered.
    pub fn complete(&mut self)
        requires
            old(self).wf(),
        ensures
            final(self).wf(),
            final(self).task_id() == old(self).task_id(),
            final(self).is_completed(),
            final(self).objects() == Seq::<T>::empty(),
    {
        self.entries = Vec::new();
        self.completed = true;
    }
}

/// A key that a task obtained fails once the task has completed: the lookup
/// reports the completion and never returns an object.
pub proof fn lemma_key_fails_after_completion<T>(
    registry: ContextRegistry<T>,
    token: HostCallToken,
    key: ContextKey,
)
    requires
        registry.wf(),
        registry.is_completed(),
    ensures
        registry.lookup(token, key) == Err::<T, RegistryError>(RegistryError::TaskCompleted),
{
}

/// A key issued by one task's registry never reaches an object of another's:
/// registries from one allocator have distinct ids, so a key used on any
/// registry but the one that issued it gives an error.
pub proof fn lemma_key_is_scoped_to_its_task<T>(
    registry: ContextRegistry<T>,
    token: HostCallToken,
    key: ContextKey,
)
    requires
        registry.wf(),
        key.task() != registry.task_id(),
    ensures
        registry.lookup(token, key) is Err,
{
}

/// A key of a registry handed out earlier never reaches an object of a
/// registry handed out later by the same allocator.
pub proof fn lemma_earlier_key_fails_on_later_registry<T>(
    allocator: RegistryAllocator,
    earlier: ContextRegistry<T>,
    later: ContextRegistry<T>,
    token: HostCallToken,
    key: ContextKey,
)
    requires
        later.wf(),
        allocator.has_issued(earlier.task_id()),
        !allocator.has_issued(later.task_id()),
        key.task() == earlier.task_id(),
    ensures
        later.lookup(token, key) is Err,
{
}

} // verus!
