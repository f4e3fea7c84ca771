//! What the pipeline reads of the module being compiled and of its target.

use vstd::prelude::*;

verus! {

/// What the pipeline reads of a module: the sizes of its dense index spaces
/// and the signature of each function.
///
/// Functions are numbered module-wide with the imported functions first:
/// local function `i` is function `imported_functions + i`.
#[derive(Debug, Clone, PartialEq, Eq)]
pub struct ModuleInfo {
    /// Number of signatures in the module's signature table.
    pub signatures: u32,
    /// Number of functions that the module imports.
    pub imported_functions: u32,
    /// Number of functions that the module defines.
    pub local_functions: u32,
    /// The signature index of each function, imported and local.
    pub functions: Vec<u32>,
}

impl ModuleInfo {
    /// The function table has one entry for each imported and each local
    /// function, its length fits 32 bits, and every entry is the index of a
    /// signature of the module.
    pub open spec fn valid(self) -> bool {
        &&& self.imported_functions + self.local_functions <= u32::MAX
        &&& self.functions@.len() == self.imported_functions + self.local_functions
        &&& forall|f: int| 0 <= f < self.functions@.len() ==> #[trigger] self.functions@[f] < self.signatures
    }

    /// The module-wide index of local function `local`.
    pub open spec fn spec_func_index(self, local: u32) -> int {
        self.imported_functions + local
    }

    /// The local index of function `function`, unless it lies among the imports.
    pub open spec fn spec_local_func_index(self, function: u32) -> Option<u32> {
        if function >= self.imported_functions {
            Some((function - self.imported_functions) as u32)
        } else {
            None
        }
    }

    /// Whether the module's index spaces are consistent.
    pub fn is_valid(&self) -> (valid: bool)
        ensures
            valid == self.valid(),
    {
        if self.local_functions > u32::MAX - self.imported_functions {
            return false;
        }
        if self.functions.len() != (self.imported_functions + self.local_functions) as usize {
            return false;
        }
        let mut f: usize = 0;
        while f < self.functions.len()
            invariant
                f <= self.functions@.len(),
                forall|g: int| 0 <= g < f ==> #[trigger] self.functions@[g] < self.signatures,
            decreases self.functions@.len() - f,
        {
            if self.functions[f] >= self.signatures {
                return false;
            }
            f += 1;
        }
        true
    }

    /// Converts a local function index into a module-wide function index.
    pub fn func_index(&self, local: u32) -> (function: u32)
        requires
            self.imported_functions + self.local_functions <= u32::MAX,
            local < self.local_functions,
        ensures
            function == self.spec_func_index(local),
    {
        self.imported_functions + local
    }

    /// Converts a module-wide function index into a local function index.
    /// Returns `None` if the function is an imported one.
    pub fn local_func_index(&self, function: u32) -> (local: Option<u32>)
        ensures
            local == self.spec_local_func_index(function),
    {
        if function >= self.imported_functions {
            Some(function - self.imported_functions)
        } else {
            None
        }
    }

    /// The signature index of function `function`.
    pub fn signature_of(&self, function: u32) -> (signature: u32)
        requires
            self.valid(),
            function < self.functions@.len(),
        ensures
            signature == self.functions@[function as int],
            signature < self.signatures,
    {
        self.functions[function as usize]
    }
}

/// The conventions by which a platform passes arguments and lays out frames.
#[derive(Debug, Clone, Copy, PartialEq, Eq)]
pub enum CallingConvention {
    SystemV,
    WasmBasicCAbi,
    WindowsFastcall,
    AppleAarch64,
}

/// What the pipeline reads of the compile target, resolved once per module.
#[derive(Debug, Clone, Copy, PartialEq, Eq)]
pub struct Target {
    /// The platform's default calling convention, if it has a known one.
    pub default_calling_convention: Option<CallingConvention>,
    /// Whether the code generator can describe this target's frames by a
    /// common frame descriptor of the table-based convention.
    pub systemv_cie: bool,
}

impl Target {
    /// The platform unwinds by a shared frame table, and the code generator
    /// supports it.
    pub open spec fn spec_table_unwind(self) -> bool {
        self.default_calling_convention == Some(CallingConvention::SystemV) && self.systemv_cie
    }

    /// Whether functions compiled for this target are unwound by a shared
    /// frame table.
    pub fn table_unwind(&self) -> (yes: bool)
        ensures
            yes == self.spec_table_unwind(),
    {
        match self.default_calling_convention {
            Some(CallingConvention::SystemV) => self.systemv_cie,
            _ => false,
        }
    }
}

} // verus!
