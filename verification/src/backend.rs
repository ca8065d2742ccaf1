//! Errors reported by the drawing backend.
use vstd::prelude::*;

use std::collections::HashMap;

use crate::draw::TextureId;

verus! {

broadcast use vstd::std_specs::hash::group_hash_axioms;

/// The textures after loading `tex` on `id`: an existing texture is replaced.
pub open spec fn load_spec<T>(m: Map<usize, T>, id: TextureId, tex: T) -> Map<usize, T> {
    m.insert(id.raw(), tex)
}

/// The textures after loading `tex` on `id` only if the id is unused: an existing
/// texture is kept.
pub open spec fn load_once_spec<T>(m: Map<usize, T>, id: TextureId, tex: T) -> Map<usize, T> {
    if m.contains_key(id.raw()) {
        m
    } else {
        m.insert(id.raw(), tex)
    }
}

/// The textures after deleting the one on `id`.
pub open spec fn delete_spec<T>(m: Map<usize, T>, id: TextureId) -> Map<usize, T> {
    m.remove(id.raw())
}

/// Textures of a backend, by texture id.
#[derive(Debug)]
pub struct TextureTable<T> {
    textures: HashMap<usize, T>,
}

impl<T> View for TextureTable<T> {
    type V = Map<usize, T>;

    closed spec fn view(&self) -> Map<usize, T> {
        self.textures@
    }
}

impl<T> TextureTable<T> {
    /// Creates an empty table.
    pub fn new() -> (r: TextureTable<T>)
        ensures
            r@ == Map::<usize, T>::empty(),
    {
        TextureTable { textures: HashMap::new() }
    }

    /// Stores a texture on a specific id; a texture already on that id is replaced.
    pub fn load(&mut self, id: TextureId, tex: T)
        ensures
            final(self)@ == load_spec(old(self)@, id, tex),
    {
        self.textures.insert(id.get(), tex);
    }

    /// Checks if a texture is stored on the id.
    pub fn contains(&self, id: TextureId) -> (r: bool)
        ensures
            r == self@.contains_key(id.raw()),
    {
        self.textures.contains_key(&id.get())
    }

    /// Stores a texture on a specific id only if it isn't used; a texture already on
    /// that id is not replaced. Returns whether the texture was stored.
    pub fn load_once(&mut self, id: TextureId, tex: T) -> (stored: bool)
        ensures
            stored == !old(self)@.contains_key(id.raw()),
            final(self)@ == load_once_spec(old(self)@, id, tex),
    {
        if self.contains(id) {
            false
        } else {
            self.load(id, tex);
            true
        }
    }

    /// Deletes the texture on the specified id.
    pub fn delete(&mut self, id: TextureId)
        ensures
            final(self)@ == delete_spec(old(self)@, id),
    {
        self.textures.remove(&id.get());
    }

    /// The texture on the specified id.
    pub fn get(&self, id: TextureId) -> (r: Option<&T>)
        ensures
            match r {
                Some(t) => self@.contains_key(id.raw()) && *t == self@[id.raw()],
                None => !self@.contains_key(id.raw()),
            },
    {
        self.textures.get(&id.get())
    }
}

/// A texture reads back as it was loaded.
pub proof fn lemma_get_after_load<T>(m: Map<usize, T>, id: TextureId, tex: T)
    ensures
        load_spec(m, id, tex).contains_key(id.raw()),
        load_spec(m, id, tex)[id.raw()] == tex,
{
}

/// Loading only once never replaces a texture, and stores it when the id is free.
pub proof fn lemma_load_once_keeps<T>(m: Map<usize, T>, id: TextureId, tex: T)
    ensures
        m.contains_key(id.raw()) ==> load_once_spec(m, id, tex) == m,
        !m.contains_key(id.raw()) ==> load_once_spec(m, id, tex) == load_spec(m, id, tex),
{
}

/// A deleted texture is gone, and other ids keep their textures across loads and deletes.
pub proof fn lemma_delete_and_others<T>(m: Map<usize, T>, id: TextureId, other: TextureId, tex: T)
    ensures
        !delete_spec(m, id).contains_key(id.raw()),
        id != other ==> (delete_spec(m, id).contains_key(other.raw()) == m.contains_key(other.raw())),
        id != other && m.contains_key(other.raw()) ==> delete_spec(m, id)[other.raw()] == m[other.raw()]
            && load_spec(m, id, tex)[other.raw()] == m[other.raw()],
{
    TextureId::lemma_raw(id, other);
}

/// Error produced by texture operations.
#[derive(Debug, Clone, Copy, PartialEq, Eq, Structural, Hash)]
pub enum TextureError {
    FormatNotSupported,
    DimensionsNotSupported,
    TypeNotSupported,
}

impl TextureError {
    /// A human readable description of the error.
    pub fn description(&self) -> (r: &'static str)
        ensures
            *self == TextureError::FormatNotSupported ==> r@
                == "The requested format is not supported by the backend"@,
            *self == TextureError::DimensionsNotSupported ==> r@
                == "The requested texture dimensions are not supported"@,
            *self == TextureError::TypeNotSupported ==> r@
                == "The texture format is not supported by the backend"@,
    {
        match self {
            TextureError::FormatNotSupported => "The requested format is not supported by the backend",
            TextureError::DimensionsNotSupported => "The requested texture dimensions are not supported",
            TextureError::TypeNotSupported => "The texture format is not supported by the backend",
        }
    }
}

} // verus!
