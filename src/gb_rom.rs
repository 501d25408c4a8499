use vstd::prelude::*;

verus! {

/// A cartridge image: the bytes of the cartridge and the title from its header.
#[derive(Debug)]
pub struct GbRom {
    data: Vec<u8>,
    title: String,
}

impl GbRom {
    /// The bytes of the cartridge.
    pub closed spec fn image(&self) -> Seq<u8> {
        self.data@
    }

    /// The title read from the cartridge header.
    pub closed spec fn title_view(&self) -> Seq<char> {
        self.title@
    }

    pub fn new(data: Vec<u8>, title: String) -> (r: Self)
        ensures
            r.image() == data@,
            r.title_view() == title@,
    {
        GbRom { data, title }
    }

    pub fn title(&self) -> (r: &str)
        ensures
            r@ == self.title_view(),
    {
        self.title.as_str()
    }

    /// Number of bytes in the cartridge image.
    pub fn len(&self) -> (r: usize)
        ensures
            r == self.image().len(),
    {
        self.data.len()
    }

    /// The byte at `idx` of the cartridge image.
    pub fn byte_at(&self, idx: usize) -> (r: u8)
        requires
            idx < self.image().len(),
        ensures
            r == self.image()[idx as int],
    {
        self.data[idx]
    }
}

} // verus!
