use vstd::prelude::*;

verus! {

/// Descriptor flag: the plugin keeps its presets as opaque chunks.
pub const PROGRAM_CHUNKS: i32 = 32;

/// Descriptor flag: the plugin does not produce sound when its input is silent.
pub const NO_SOUND_IN_STOP: i32 = 512;

/// Descriptor flag: the plugin can process double-precision samples.
pub const CAN_DOUBLE_REPLACING: i32 = 4096;

/// Size of the buffer a plugin writes its product name into.
pub const MAX_PRODUCT_STR_LEN: usize = 64;

/// Size of the buffer a plugin writes its vendor name into.
pub const MAX_VENDOR_STR_LEN: usize = 64;

/// The kind of plugin, as the plugin reports it.
#[derive(Clone, Copy, Debug, PartialEq, Eq, Structural)]
pub enum Category {
    Unknown,
    Effect,
    Synth,
    Analysis,
    Mastering,
    Spacializer,
    RoomFx,
    SurroundFx,
    Restoration,
    OfflineProcess,
    Shell,
    Generator,
}

/// The category a plugin's category reply stands for; codes out of the protocol's range
/// are `Unknown`.
pub open spec fn category_of(code: isize) -> Category {
    if code == 1 {
        Category::Effect
    } else if code == 2 {
        Category::Synth
    } else if code == 3 {
        Category::Analysis
    } else if code == 4 {
        Category::Mastering
    } else if code == 5 {
        Category::Spacializer
    } else if code == 6 {
        Category::RoomFx
    } else if code == 7 {
        Category::SurroundFx
    } else if code == 8 {
        Category::Restoration
    } else if code == 9 {
        Category::OfflineProcess
    } else if code == 10 {
        Category::Shell
    } else if code == 11 {
        Category::Generator
    } else {
        Category::Unknown
    }
}

impl Category {
    /// Maps a category reply of the plugin to its category.
    pub fn from_code(code: isize) -> (r: Category)
        ensures
            r == category_of(code),
    {
        match code {
            1 => Category::Effect,
            2 => Category::Synth,
            3 => Category::Analysis,
            4 => Category::Mastering,
            5 => Category::Spacializer,
            6 => Category::RoomFx,
            7 => Category::SurroundFx,
            8 => Category::Restoration,
            9 => Category::OfflineProcess,
            10 => Category::Shell,
            11 => Category::Generator,
            _ => Category::Unknown,
        }
    }
}

/// The fixed fields of a plugin's descriptor, as read from it at one moment.
#[derive(Clone, Copy, Debug, PartialEq, Eq, Structural)]
pub struct Descriptor {
    pub num_programs: i32,
    pub num_params: i32,
    pub num_inputs: i32,
    pub num_outputs: i32,
    pub flags: i32,
    pub initial_delay: i32,
    pub unique_id: i32,
    pub version: i32,
}

/// Whether the flag set has any of the bits of `flag`.
pub open spec fn has_flag(flags: i32, flag: i32) -> bool {
    flags & flag != 0
}

/// `t` is the text of `s` up to, and not including, its first NUL character (all of `s`
/// where it has none).
pub open spec fn is_text_before_nul(s: Seq<char>, t: Seq<char>) -> bool {
    &&& t.len() <= s.len()
    &&& t == s.take(t.len() as int)
    &&& forall|i: int| 0 <= i < t.len() ==> t[i] != '\0'
    &&& (t.len() == s.len() || s[t.len() as int] == '\0')
}

/// The characters that `String::from_utf8_lossy` decodes from the given bytes.
pub uninterp spec fn lossy_text(bytes: Seq<u8>) -> Seq<char>;

/// Relies on `String::from_utf8_lossy`: decodes the bytes as UTF-8, each invalid sequence
/// becoming U+FFFD; the result depends on the bytes alone.
#[verifier::external_body]
fn decode_lossy(bytes: &Vec<u8>) -> (r: String)
    ensures
        r@ == lossy_text(bytes@),
{
    String::from_utf8_lossy(bytes.as_slice()).into_owned()
}

/// The text of `s` before its first NUL character.
pub fn text_before_nul(s: &str) -> (r: String)
    ensures
        is_text_before_nul(s@, r@),
{
    let len = s.unicode_len();
    let mut i: usize = 0;
    while i < len && s.get_char(i) != '\0'
        invariant
            len == s@.len(),
            i <= len,
            forall|j: int| 0 <= j < i ==> s@[j] != '\0',
        decreases len - i,
    {
        i = i + 1;
    }
    let r = s.substring_char(0, i).to_owned();
    assert(r@ =~= s@.take(i as int));
    r
}

/// Reads a NUL-terminated name out of a buffer a plugin wrote it to.
pub fn read_text(buf: &Vec<u8>) -> (r: String)
    ensures
        is_text_before_nul(lossy_text(buf@), r@),
{
    let decoded = decode_lossy(buf);
    text_before_nul(decoded.as_str())
}

/// What the host knows of a plugin: an immutable snapshot taken when it is instantiated.
#[derive(Clone, Debug)]
pub struct Info {
    pub name: String,
    pub vendor: String,
    pub presets: i32,
    pub parameters: i32,
    pub inputs: i32,
    pub outputs: i32,
    pub unique_id: i32,
    pub version: i32,
    pub category: Category,
    pub initial_delay: i32,
    pub preset_chunks: bool,
    pub f64_precision: bool,
    pub silent_when_stopped: bool,
}

impl Info {
    /// The numeric and capability fields of the snapshot are those of the descriptor.
    pub open spec fn matches_descriptor(self, d: Descriptor) -> bool {
        &&& self.presets == d.num_programs
        &&& self.parameters == d.num_params
        &&& self.inputs == d.num_inputs
        &&& self.outputs == d.num_outputs
        &&& self.unique_id == d.unique_id
        &&& self.version == d.version
        &&& self.initial_delay == d.initial_delay
        &&& self.preset_chunks == has_flag(d.flags, PROGRAM_CHUNKS)
        &&& self.f64_precision == has_flag(d.flags, CAN_DOUBLE_REPLACING)
        &&& self.silent_when_stopped == has_flag(d.flags, NO_SOUND_IN_STOP)
    }

    /// Builds the snapshot from the descriptor's fields, the buffers the plugin wrote its
    /// product and vendor names into, and its reply to the category request.
    pub fn from_descriptor(d: &Descriptor, name_buf: &Vec<u8>, vendor_buf: &Vec<u8>, category: isize) -> (r: Info)
        ensures
            r.matches_descriptor(*d),
            is_text_before_nul(lossy_text(name_buf@), r.name@),
            is_text_before_nul(lossy_text(vendor_buf@), r.vendor@),
            r.category == category_of(category),
    {
        Info {
            name: read_text(name_buf),
            vendor: read_text(vendor_buf),
            presets: d.num_programs,
            parameters: d.num_params,
            inputs: d.num_inputs,
            outputs: d.num_outputs,
            unique_id: d.unique_id,
            version: d.version,
            category: Category::from_code(category),
            initial_delay: d.initial_delay,
            preset_chunks: d.flags & PROGRAM_CHUNKS != 0,
            f64_precision: d.flags & CAN_DOUBLE_REPLACING != 0,
            silent_when_stopped: d.flags & NO_SOUND_IN_STOP != 0,
        }
    }

    /// A copy of the snapshot.
    pub fn duplicate(&self) -> (r: Info)
        ensures
            r == *self,
    {
        Info {
            name: self.name.clone(),
            vendor: self.vendor.clone(),
            presets: self.presets,
            parameters: self.parameters,
            inputs: self.inputs,
            outputs: self.outputs,
            unique_id: self.unique_id,
            version: self.version,
            category: self.category,
            initial_delay: self.initial_delay,
            preset_chunks: self.preset_chunks,
            f64_precision: self.f64_precision,
            silent_when_stopped: self.silent_when_stopped,
        }
    }
}

} // verus!
