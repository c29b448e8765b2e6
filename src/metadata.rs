//! The metadata document and its name resolution.
use vstd::prelude::*;
use vstd::string::StringSliceAdditionalSpecFns;
use crate::bytes::{bytes_eq, to_bytes, append_bytes};

verus! {

/// The hashing rule a storage item uses to turn its location into a key.
#[derive(Clone, Copy, Debug, PartialEq, Eq, Structural)]
pub enum StorageHasher {
    Blake2_128,
    Blake2_256,
    Blake2_128Concat,
    Twox128,
    Twox256,
    Twox64Concat,
}

/// Whether a storage item holds one value or a value per key.
#[derive(Clone, Copy, Debug, PartialEq, Eq, Structural)]
pub enum StorageKind {
    Plain,
    Keyed,
}

/// What the document says of one storage item.
#[derive(Clone, Debug)]
pub struct StorageMetadata {
    pub name: Vec<u8>,
    pub kind: StorageKind,
    pub hasher: StorageHasher,
    /// The encoded value that stands for an absent entry.
    pub default: Vec<u8>,
}

/// What the document says of one callable entry point.
#[derive(Clone, Debug)]
pub struct CallMetadata {
    pub name: Vec<u8>,
    pub index: u8,
}

/// What the document says of one module.
#[derive(Clone, Debug)]
pub struct ModuleMetadata {
    pub name: Vec<u8>,
    pub index: u8,
    pub storage: Vec<StorageMetadata>,
    pub calls: Vec<CallMetadata>,
}

/// The metadata document: the modules of the remote runtime.
#[derive(Clone, Debug)]
pub struct Metadata {
    pub modules: Vec<ModuleMetadata>,
}

/// A failed lookup in the metadata document.
#[derive(Clone, Debug, PartialEq, Eq)]
pub enum MetadataError {
    ModuleNotFound(Vec<u8>),
    StorageNotFound(Vec<u8>),
    CallNotFound(Vec<u8>),
    /// The storage item exists but is not of the requested kind.
    StorageKindMismatch(Vec<u8>),
}

/// A resolved storage item, ready to derive keys.
#[derive(Clone, Debug)]
pub struct StorageMap {
    pub module_name: Vec<u8>,
    pub item_name: Vec<u8>,
    pub hasher: StorageHasher,
    pub default: Vec<u8>,
}

/// An encoded call: module index, call index, then the encoded arguments.
#[derive(Clone, Debug)]
pub struct Encoded {
    pub bytes: Vec<u8>,
}

/// Index of the first module of `ms` named `name`, if any.
pub open spec fn first_module(ms: Seq<ModuleMetadata>, name: Seq<u8>) -> Option<int> {
    if exists|i: int| 0 <= i < ms.len() && #[trigger] ms[i].name@ == name
        && forall|j: int| 0 <= j < i ==> #[trigger] ms[j].name@ != name {
        Some(choose|i: int| 0 <= i < ms.len() && ms[i].name@ == name
            && forall|j: int| 0 <= j < i ==> #[trigger] ms[j].name@ != name)
    } else {
        None
    }
}

/// Index of the first storage item of `ss` named `name`, if any.
pub open spec fn first_storage(ss: Seq<StorageMetadata>, name: Seq<u8>) -> Option<int> {
    if exists|i: int| 0 <= i < ss.len() && #[trigger] ss[i].name@ == name
        && forall|j: int| 0 <= j < i ==> #[trigger] ss[j].name@ != name {
        Some(choose|i: int| 0 <= i < ss.len() && ss[i].name@ == name
            && forall|j: int| 0 <= j < i ==> #[trigger] ss[j].name@ != name)
    } else {
        None
    }
}

/// Index of the first call of `cs` named `name`, if any.
pub open spec fn first_call(cs: Seq<CallMetadata>, name: Seq<u8>) -> Option<int> {
    if exists|i: int| 0 <= i < cs.len() && #[trigger] cs[i].name@ == name
        && forall|j: int| 0 <= j < i ==> #[trigger] cs[j].name@ != name {
        Some(choose|i: int| 0 <= i < cs.len() && cs[i].name@ == name
            && forall|j: int| 0 <= j < i ==> #[trigger] cs[j].name@ != name)
    } else {
        None
    }
}

/// The bytes of an encoded call.
pub open spec fn call_bytes(module_index: u8, call_index: u8, args: Seq<u8>) -> Seq<u8> {
    seq![module_index, call_index] + args
}

impl Metadata {
    /// Looks up a module by its exact name.
    pub fn module(&self, name: &str) -> (r: Result<&ModuleMetadata, MetadataError>)
        ensures
            match first_module(self.modules@, name.spec_bytes()) {
                Some(i) => r == Ok::<&ModuleMetadata, MetadataError>(&self.modules@[i]),
                None => r matches Err(MetadataError::ModuleNotFound(n))
                    && n@ == name.spec_bytes(),
            },
    {
        let key = name.as_bytes();
        let mut i: usize = 0;
        while i < self.modules.len()
            invariant
                0 <= i <= self.modules@.len(),
                key@ == name.spec_bytes(),
                forall|j: int| 0 <= j < i ==> #[trigger] self.modules@[j].name@ != key@,
            decreases self.modules@.len() - i,
        {
            if bytes_eq(self.modules[i].name.as_slice(), key) {
                proof {
                    let ms = self.modules@;
                    let k = i as int;
                    assert(0 <= k < ms.len() && ms[k].name@ == key@);
                    let c = choose|c: int| 0 <= c < ms.len() && ms[c].name@ == key@
                        && forall|j: int| 0 <= j < c ==> #[trigger] ms[j].name@ != key@;
                    if c < k {
                    } else if c > k {
                        assert(ms[k].name@ != key@);
                    }
                }
                return Ok(&self.modules[i]);
            }
            i = i + 1;
        }
        Err(MetadataError::ModuleNotFound(to_bytes(key)))
    }
}

impl ModuleMetadata {
    /// Looks up a storage item of this module by its exact name.
    pub fn storage(&self, name: &str) -> (r: Result<&StorageMetadata, MetadataError>)
        ensures
            match first_storage(self.storage@, name.spec_bytes()) {
                Some(i) => r == Ok::<&StorageMetadata, MetadataError>(&self.storage@[i]),
                None => r matches Err(MetadataError::StorageNotFound(n))
                    && n@ == name.spec_bytes(),
            },
    {
        let key = name.as_bytes();
        let mut i: usize = 0;
        while i < self.storage.len()
            invariant
                0 <= i <= self.storage@.len(),
                key@ == name.spec_bytes(),
                forall|j: int| 0 <= j < i ==> #[trigger] self.storage@[j].name@ != key@,
            decreases self.storage@.len() - i,
        {
            if bytes_eq(self.storage[i].name.as_slice(), key) {
                proof {
                    let ss = self.storage@;
                    let k = i as int;
                    assert(0 <= k < ss.len() && ss[k].name@ == key@);
                    let c = choose|c: int| 0 <= c < ss.len() && ss[c].name@ == key@
                        && forall|j: int| 0 <= j < c ==> #[trigger] ss[j].name@ != key@;
                    if c < k {
                    } else if c > k {
                        assert(ss[k].name@ != key@);
                    }
                }
                return Ok(&self.storage[i]);
            }
            i = i + 1;
        }
        Err(MetadataError::StorageNotFound(to_bytes(key)))
    }

    /// Resolves a map storage item of this module into a key deriver.
    pub fn storage_map(&self, name: &str) -> (r: Result<StorageMap, MetadataError>)
        ensures
            match first_storage(self.storage@, name.spec_bytes()) {
                Some(i) => {
                    let s = self.storage@[i];
                    if s.kind == StorageKind::Keyed {
                        r matches Ok(m) && m.module_name@ == self.name@
                            && m.item_name@ == name.spec_bytes() && m.hasher == s.hasher
                            && m.default@ == s.default@
                    } else {
                        r matches Err(MetadataError::StorageKindMismatch(n))
                            && n@ == name.spec_bytes()
                    }
                },
                None => r matches Err(MetadataError::StorageNotFound(n))
                    && n@ == name.spec_bytes(),
            },
    {
        let s = self.storage(name)?;
        let item = to_bytes(name.as_bytes());
        match s.kind {
            StorageKind::Keyed => Ok(StorageMap {
                module_name: to_bytes(self.name.as_slice()),
                item_name: item,
                hasher: s.hasher,
                default: to_bytes(s.default.as_slice()),
            }),
            StorageKind::Plain => Err(MetadataError::StorageKindMismatch(item)),
        }
    }

    /// Encodes a call of this module with already encoded arguments.
    pub fn call(&self, name: &str, args: &[u8]) -> (r: Result<Encoded, MetadataError>)
        ensures
            match first_call(self.calls@, name.spec_bytes()) {
                Some(i) => r matches Ok(e)
                    && e.bytes@ == call_bytes(self.index, self.calls@[i].index, args@),
                None => r matches Err(MetadataError::CallNotFound(n))
                    && n@ == name.spec_bytes(),
            },
    {
        let key = name.as_bytes();
        let mut i: usize = 0;
        while i < self.calls.len()
            invariant
                0 <= i <= self.calls@.len(),
                key@ == name.spec_bytes(),
                forall|j: int| 0 <= j < i ==> #[trigger] self.calls@[j].name@ != key@,
            decreases self.calls@.len() - i,
        {
            if bytes_eq(self.calls[i].name.as_slice(), key) {
                proof {
                    let cs = self.calls@;
                    let k = i as int;
                    assert(0 <= k < cs.len() && cs[k].name@ == key@);
                    let c = choose|c: int| 0 <= c < cs.len() && cs[c].name@ == key@
                        && forall|j: int| 0 <= j < c ==> #[trigger] cs[j].name@ != key@;
                    if c < k {
                    } else if c > k {
                        assert(cs[k].name@ != key@);
                    }
                }
                let mut bytes: Vec<u8> = Vec::new();
                bytes.push(self.index);
                bytes.push(self.calls[i].index);
                append_bytes(&mut bytes, args);
                assert(bytes@ =~= call_bytes(self.index, self.calls@[i as int].index, args@));
                return Ok(Encoded { bytes });
            }
            i = i + 1;
        }
        Err(MetadataError::CallNotFound(to_bytes(key)))
    }
}

} // verus!

verus! {

/// The bytes of the call `call` of module `module` with encoded arguments
/// `args`, if the document has both names.
pub open spec fn resolved_call(md: Metadata, module: Seq<u8>, call: Seq<u8>, args: Seq<u8>) -> Option<Seq<u8>> {
    match first_module(md.modules@, module) {
        Some(i) => match first_call(md.modules@[i].calls@, call) {
            Some(j) => Some(call_bytes(md.modules@[i].index, md.modules@[i].calls@[j].index, args)),
            None => None,
        },
        None => None,
    }
}

/// The hasher and default of the map item `item` of module `module`, if the
/// document has both names and the item is a map.
pub open spec fn resolved_map(md: Metadata, module: Seq<u8>, item: Seq<u8>) -> Option<(StorageHasher, Seq<u8>)> {
    match first_module(md.modules@, module) {
        Some(i) => match first_storage(md.modules@[i].storage@, item) {
            Some(j) => {
                let s = md.modules@[i].storage@[j];
                if s.kind == StorageKind::Keyed { Some((s.hasher, s.default@)) } else { None }
            },
            None => None,
        },
        None => None,
    }
}

/// The document has a module named `module`.
pub open spec fn has_module(md: Metadata, module: Seq<u8>) -> bool {
    first_module(md.modules@, module) is Some
}

/// The document has a module named `module` with a storage item `item`.
pub open spec fn has_storage(md: Metadata, module: Seq<u8>, item: Seq<u8>) -> bool {
    match first_module(md.modules@, module) {
        Some(i) => first_storage(md.modules@[i].storage@, item) is Some,
        None => false,
    }
}

/// The error a failed call resolution reports.
pub open spec fn call_error_matches(md: Metadata, module: Seq<u8>, call: Seq<u8>, e: MetadataError) -> bool {
    if has_module(md, module) {
        e matches MetadataError::CallNotFound(n) && n@ == call
    } else {
        e matches MetadataError::ModuleNotFound(n) && n@ == module
    }
}

/// The error a failed map resolution reports.
pub open spec fn map_error_matches(md: Metadata, module: Seq<u8>, item: Seq<u8>, e: MetadataError) -> bool {
    if !has_module(md, module) {
        e matches MetadataError::ModuleNotFound(n) && n@ == module
    } else if !has_storage(md, module, item) {
        e matches MetadataError::StorageNotFound(n) && n@ == item
    } else {
        e matches MetadataError::StorageKindMismatch(n) && n@ == item
    }
}

impl Metadata {
    /// Resolves a map storage item by module and item name.
    pub fn storage_map(&self, module: &str, item: &str) -> (r: Result<StorageMap, MetadataError>)
        ensures
            match resolved_map(*self, module.spec_bytes(), item.spec_bytes()) {
                Some((h, d)) => r matches Ok(m) && m.module_name@ == module.spec_bytes()
                    && m.item_name@ == item.spec_bytes() && m.hasher == h && m.default@ == d,
                None => r matches Err(e) && map_error_matches(*self, module.spec_bytes(), item.spec_bytes(), e),
            },
    {
        let m = self.module(module)?;
        proof {
            let ms = self.modules@;
            let n = module.spec_bytes();
            let i = first_module(ms, n)->Some_0;
            assert(ms[i].name@ == n);
        }
        m.storage_map(item)
    }

    /// Encodes a call by module and call name with encoded arguments.
    pub fn encode_call(&self, module: &str, call: &str, args: &[u8]) -> (r: Result<Encoded, MetadataError>)
        ensures
            match resolved_call(*self, module.spec_bytes(), call.spec_bytes(), args@) {
                Some(b) => r matches Ok(e) && e.bytes@ == b,
                None => r matches Err(e) && call_error_matches(*self, module.spec_bytes(), call.spec_bytes(), e),
            },
    {
        let m = self.module(module)?;
        m.call(call, args)
    }
}

} // verus!

verus! {

/// The document is a mapping: no two modules share a name, and within a
/// module no two storage items and no two calls share a name.
pub open spec fn well_formed(md: Metadata) -> bool {
    let ms = md.modules@;
    &&& forall|i: int, j: int| 0 <= i < j < ms.len() ==> #[trigger] ms[i].name@ != #[trigger] ms[j].name@
    &&& forall|k: int, i: int, j: int| 0 <= k < ms.len() && 0 <= i < j < ms[k].storage@.len()
        ==> #[trigger] ms[k].storage@[i].name@ != #[trigger] ms[k].storage@[j].name@
    &&& forall|k: int, i: int, j: int| 0 <= k < ms.len() && 0 <= i < j < ms[k].calls@.len()
        ==> #[trigger] ms[k].calls@[i].name@ != #[trigger] ms[k].calls@[j].name@
}

/// In a well-formed document, a module and storage item that are present
/// resolve to exactly that module and item, whose names are the ones asked
/// for.
pub proof fn lemma_present_storage_resolves(md: Metadata, i: int, j: int)
    requires
        well_formed(md),
        0 <= i < md.modules@.len(),
        0 <= j < md.modules@[i].storage@.len(),
    ensures
        first_module(md.modules@, md.modules@[i].name@) == Some(i),
        first_storage(md.modules@[i].storage@, md.modules@[i].storage@[j].name@) == Some(j),
        has_storage(md, md.modules@[i].name@, md.modules@[i].storage@[j].name@),
{
    let ms = md.modules@;
    let n = ms[i].name@;
    assert(forall|k: int| 0 <= k < i ==> #[trigger] ms[k].name@ != n);
    let c = first_module(ms, n)->Some_0;
    assert(c == i) by {
        if c < i {
            assert(ms[c].name@ != ms[i].name@);
        } else if c > i {
            assert(ms[i].name@ != ms[c].name@);
        }
    }
    let ss = ms[i].storage@;
    let m = ss[j].name@;
    assert(forall|k: int| 0 <= k < j ==> #[trigger] ss[k].name@ != m);
    let d = first_storage(ss, m)->Some_0;
    assert(d == j) by {
        if d < j {
            assert(ss[d].name@ != ss[j].name@);
        } else if d > j {
            assert(ss[j].name@ != ss[d].name@);
        }
    }
}

/// In a well-formed document, a module and call that are present resolve to
/// exactly that module and call: the encoded call starts with their indices.
pub proof fn lemma_present_call_resolves(md: Metadata, i: int, j: int, args: Seq<u8>)
    requires
        well_formed(md),
        0 <= i < md.modules@.len(),
        0 <= j < md.modules@[i].calls@.len(),
    ensures
        resolved_call(md, md.modules@[i].name@, md.modules@[i].calls@[j].name@, args)
            == Some(call_bytes(md.modules@[i].index, md.modules@[i].calls@[j].index, args)),
{
    let ms = md.modules@;
    let n = ms[i].name@;
    assert(forall|k: int| 0 <= k < i ==> #[trigger] ms[k].name@ != n);
    let c = first_module(ms, n)->Some_0;
    assert(c == i) by {
        if c < i {
            assert(ms[c].name@ != ms[i].name@);
        } else if c > i {
            assert(ms[i].name@ != ms[c].name@);
        }
    }
    let cs = ms[i].calls@;
    let m = cs[j].name@;
    assert(forall|k: int| 0 <= k < j ==> #[trigger] cs[k].name@ != m);
    let d = first_call(cs, m)->Some_0;
    assert(d == j) by {
        if d < j {
            assert(cs[d].name@ != cs[j].name@);
        } else if d > j {
            assert(cs[j].name@ != cs[d].name@);
        }
    }
}

/// A module name that no module of the document carries does not resolve,
/// and every lookup through it reports that module as missing.
pub proof fn lemma_absent_module(md: Metadata, module: Seq<u8>, item: Seq<u8>, e: MetadataError)
    requires
        forall|k: int| 0 <= k < md.modules@.len() ==> #[trigger] md.modules@[k].name@ != module,
    ensures
        first_module(md.modules@, module) is None,
        resolved_map(md, module, item) is None,
        resolved_call(md, module, item, Seq::empty()) is None,
        map_error_matches(md, module, item, e) <==> (e matches MetadataError::ModuleNotFound(n) && n@ == module),
        call_error_matches(md, module, item, e) <==> (e matches MetadataError::ModuleNotFound(n) && n@ == module),
{
}

/// In a well-formed document, a storage item name that a present module does
/// not carry does not resolve, and the lookup reports the item, not the
/// module, as missing.
pub proof fn lemma_absent_storage(md: Metadata, i: int, item: Seq<u8>, e: MetadataError)
    requires
        well_formed(md),
        0 <= i < md.modules@.len(),
        forall|k: int| 0 <= k < md.modules@[i].storage@.len() ==> #[trigger] md.modules@[i].storage@[k].name@ != item,
    ensures
        resolved_map(md, md.modules@[i].name@, item) is None,
        map_error_matches(md, md.modules@[i].name@, item, e)
            <==> (e matches MetadataError::StorageNotFound(n) && n@ == item),
{
    let ms = md.modules@;
    let n = ms[i].name@;
    assert(forall|k: int| 0 <= k < i ==> #[trigger] ms[k].name@ != n);
    let c = first_module(ms, n)->Some_0;
    assert(c == i) by {
        if c < i {
            assert(ms[c].name@ != ms[i].name@);
        } else if c > i {
            assert(ms[i].name@ != ms[c].name@);
        }
    }
}

/// In a well-formed document, a call name that a present module does not
/// carry does not resolve, and the lookup reports the call, not the module,
/// as missing.
pub proof fn lemma_absent_call(md: Metadata, i: int, call: Seq<u8>, args: Seq<u8>, e: MetadataError)
    requires
        well_formed(md),
        0 <= i < md.modules@.len(),
        forall|k: int| 0 <= k < md.modules@[i].calls@.len() ==> #[trigger] md.modules@[i].calls@[k].name@ != call,
    ensures
        resolved_call(md, md.modules@[i].name@, call, args) is None,
        call_error_matches(md, md.modules@[i].name@, call, e)
            <==> (e matches MetadataError::CallNotFound(n) && n@ == call),
{
    let ms = md.modules@;
    let n = ms[i].name@;
    assert(forall|k: int| 0 <= k < i ==> #[trigger] ms[k].name@ != n);
    let c = first_module(ms, n)->Some_0;
    assert(c == i) by {
        if c < i {
            assert(ms[c].name@ != ms[i].name@);
        } else if c > i {
            assert(ms[i].name@ != ms[c].name@);
        }
    }
}

} // verus!
