use vstd::prelude::*;

verus! {

/// Convenience function for getting a quick-working fel4.toml example.
pub fn get_exemplar_default_toml() -> &'static str {
    "[fel4]\n\
     artifact-path = \"artifacts\"\n\
     target-specs-path = \"target_specs\"\n\
     target = \"x86_64-sel4-fel4\"\n\
     platform = \"pc99\"\n\
     \n\
     [x86_64-sel4-fel4]\n\
     BuildWithCommonSimulationSettings = true\n\
     KernelArch = \"x86\"\n\
     KernelX86Sel4Arch = \"x86_64\"\n\
     \n\
     [x86_64-sel4-fel4.debug]\n\
     KernelDebugBuild = true\n\
     KernelPrinting = true\n\
     \n\
     [x86_64-sel4-fel4.release]\n\
     KernelDebugBuild = false\n\
     KernelPrinting = false\n\
     \n\
     [x86_64-sel4-fel4.pc99]\n\
     KernelX86MicroArch = \"nehalem\"\n\
     LibPlatSupportX86ConsoleDevice = \"com1\"\n\
     \n\
     [armv7-sel4-fel4]\n\
     KernelArch = \"arm\"\n\
     KernelArmSel4Arch = \"aarch32\"\n\
     \n\
     [armv7-sel4-fel4.debug]\n\
     KernelDebugBuild = true\n\
     KernelPrinting = true\n\
     \n\
     [armv7-sel4-fel4.release]\n\
     KernelDebugBuild = false\n\
     KernelPrinting = false\n\
     \n\
     [armv7-sel4-fel4.sabre]\n\
     KernelARMPlatform = \"imx6\"\n"
}

} // verus!
