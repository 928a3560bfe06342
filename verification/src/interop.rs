//! The uniform face that the active backend shows to the application.

use vstd::prelude::*;
use crate::backend::Backend;

verus! {

/// The name of a texture, as the user interface knows it.
#[derive(Debug, Copy, Clone, PartialEq, Eq, Structural, Hash)]
pub enum TextureId {
    /// A texture that the user interface manages itself.
    Managed(u64),
    /// A texture that the application registered.
    User(u64),
}

/// The texture name that the software backend gives in place of a native
/// texture, which it cannot show.
pub open spec fn dummy_texture() -> TextureId {
    TextureId::User(0)
}

/// The name under which a backend shows itself to the user.
pub open spec fn name_of(backend: Backend) -> Seq<char> {
    match backend {
        Backend::SoftwareBackend => "Software Backend"@,
        Backend::Eframe => "eframe"@,
    }
}

/// The backend that runs the application, with the handle into its runtime
/// that is valid for the frame at hand: `S` for the software backend, `F`
/// for the hardware runtime.
pub enum BackendInterop<S, F> {
    /// The software backend runs the application.
    SoftwareBackend(S),
    /// The hardware runtime runs the application.
    Eframe(F),
}

impl<S, F> BackendInterop<S, F> {
    /// The backend that runs the application.
    pub open spec fn spec_backend(&self) -> Backend {
        match self {
            BackendInterop::SoftwareBackend(_) => Backend::SoftwareBackend,
            BackendInterop::Eframe(_) => Backend::Eframe,
        }
    }

    /// The backend that runs the application.
    pub fn backend(&self) -> (b: Backend)
        ensures
            b == self.spec_backend(),
    {
        match self {
            BackendInterop::SoftwareBackend(_) => Backend::SoftwareBackend,
            BackendInterop::Eframe(_) => Backend::Eframe,
        }
    }

    /// The name of the backend that runs the application.
    pub fn backend_name(&self) -> (name: &'static str)
        ensures
            name@ == name_of(self.spec_backend()),
    {
        match self {
            BackendInterop::SoftwareBackend(_) => "Software Backend",
            BackendInterop::Eframe(_) => "eframe",
        }
    }

    /// Whether the application runs in a browser. It never does.
    pub fn is_web(&self) -> (web: bool)
        ensures
            !web,
    {
        false
    }

    /// The information about the integration, which each backend keeps in
    /// its own place: `of_software` takes it from the handle of the
    /// software backend, `of_frame` from that of the hardware runtime. Only
    /// the one for the backend at hand is called.
    pub fn into<'a, I, Q, R>(&'a self, of_software: Q, of_frame: R) -> (info: &'a I) where
        Q: FnOnce(&'a S) -> &'a I,
        R: FnOnce(&'a F) -> &'a I,

        requires
            match self {
                BackendInterop::SoftwareBackend(handle) => of_software.requires((handle,)),
                BackendInterop::Eframe(frame) => of_frame.requires((frame,)),
            },
        ensures
            match self {
                BackendInterop::SoftwareBackend(handle) => of_software.ensures((handle,), info),
                BackendInterop::Eframe(frame) => of_frame.ensures((frame,), info),
            },
    {
        match self {
            BackendInterop::SoftwareBackend(handle) => of_software(handle),
            BackendInterop::Eframe(frame) => of_frame(frame),
        }
    }

    /// The persisted store, where the backend at hand has one:
    /// `of_software` takes it from the handle of the software backend,
    /// `of_frame` from that of the hardware runtime, which keeps a store of
    /// its own. Only the one for the backend at hand is called.
    pub fn storage<'a, T, Q, R>(&'a self, of_software: Q, of_frame: R) -> (store: Option<T>) where
        Q: FnOnce(&'a S) -> Option<T>,
        R: FnOnce(&'a F) -> Option<T>,

        requires
            match self {
                BackendInterop::SoftwareBackend(handle) => of_software.requires((handle,)),
                BackendInterop::Eframe(frame) => of_frame.requires((frame,)),
            },
        ensures
            match self {
                BackendInterop::SoftwareBackend(handle) => of_software.ensures((handle,), store),
                BackendInterop::Eframe(frame) => of_frame.ensures((frame,), store),
            },
    {
        match self {
            BackendInterop::SoftwareBackend(handle) => of_software(handle),
            BackendInterop::Eframe(frame) => of_frame(frame),
        }
    }

    /// The persisted store for writing, where the backend at hand has one.
    /// Only the one of `of_software` and `of_frame` that is for the backend
    /// at hand is called, on the handle that the facade holds.
    pub fn storage_mut<'a, T, Q, R>(
        &'a mut self,
        of_software: Q,
        of_frame: R,
    ) -> (store: Option<T>) where
        Q: FnOnce(&'a mut S) -> Option<T>,
        R: FnOnce(&'a mut F) -> Option<T>,

        requires
            old(self).spec_backend() == Backend::SoftwareBackend ==> forall|handle: &mut S|
                *handle == old(self)->SoftwareBackend_0 ==> of_software.requires((handle,)),
            old(self).spec_backend() == Backend::Eframe ==> forall|frame: &mut F|
                *frame == old(self)->Eframe_0 ==> of_frame.requires((frame,)),
        ensures
            final(self).spec_backend() == old(self).spec_backend(),
            old(self).spec_backend() == Backend::SoftwareBackend ==> exists|handle: &mut S|
                *handle == old(self)->SoftwareBackend_0 && of_software.ensures((handle,), store),
            old(self).spec_backend() == Backend::Eframe ==> exists|frame: &mut F|
                *frame == old(self)->Eframe_0 && of_frame.ensures((frame,), store),
    {
        match self {
            BackendInterop::SoftwareBackend(handle) => of_software(handle),
            BackendInterop::Eframe(frame) => of_frame(frame),
        }
    }

    /// The graphics context of the hardware runtime, which `context_of`
    /// takes from its handle. The software backend has none, and
    /// `context_of` is not called for it.
    pub fn gl<'a, G, Q: FnOnce(&'a mut F) -> Option<G>>(
        &'a mut self,
        context_of: Q,
    ) -> (context: Option<G>)
        requires
            old(self).spec_backend() == Backend::Eframe ==> forall|frame: &mut F|
                *frame == old(self)->Eframe_0 ==> context_of.requires((frame,)),
        ensures
            final(self).spec_backend() == old(self).spec_backend(),
            old(self).spec_backend() == Backend::SoftwareBackend ==> context is None
                && *final(self) == *old(self),
            old(self).spec_backend() == Backend::Eframe ==> exists|frame: &mut F|
                *frame == old(self)->Eframe_0 && context_of.ensures((frame,), context),
    {
        match self {
            BackendInterop::SoftwareBackend(_) => None,
            BackendInterop::Eframe(frame) => context_of(frame),
        }
    }

    /// Registers a native texture with the hardware runtime, through
    /// `register`, and returns its name. The software backend cannot show
    /// one: it returns the dummy name, and `register` is not called.
    pub fn register_native_glow_texture<'a, T, Q: FnOnce(&'a mut F, T) -> TextureId>(
        &'a mut self,
        native: T,
        register: Q,
    ) -> (id: TextureId)
        requires
            old(self).spec_backend() == Backend::Eframe ==> forall|frame: &mut F|
                *frame == old(self)->Eframe_0 ==> register.requires((frame, native)),
        ensures
            final(self).spec_backend() == old(self).spec_backend(),
            old(self).spec_backend() == Backend::SoftwareBackend ==> id == dummy_texture()
                && *final(self) == *old(self),
            old(self).spec_backend() == Backend::Eframe ==> exists|frame: &mut F|
                *frame == old(self)->Eframe_0 && register.ensures((frame, native), id),
    {
        match self {
            BackendInterop::SoftwareBackend(_) => TextureId::User(0),
            BackendInterop::Eframe(frame) => register(frame, native),
        }
    }
}

/// The two backends show themselves under different names.
pub proof fn lemma_names_differ()
    ensures
        name_of(Backend::SoftwareBackend) != name_of(Backend::Eframe),
        name_of(Backend::SoftwareBackend).len() == 16,
        name_of(Backend::Eframe).len() == 6,
{
    reveal_strlit("Software Backend");
    reveal_strlit("eframe");
    assert("Software Backend"@.len() == 16);
    assert("eframe"@.len() == 6);
}

} // verus!
