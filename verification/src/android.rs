//! Android compatibility layer: the isolated runtime's lifecycle.
//!
//! The hypervisor work — creating the protected VM, loading the system
//! image, passing the GPU through — belongs to the platform layer; here
//! lives the runtime state machine every operation consults.

use vstd::prelude::*;

verus! {

/// Runtime lifecycle states.
#[derive(Clone, Copy, Debug, PartialEq, Eq, Structural)]
pub enum AndroidStatus {
    /// Not initialized
    NotInitialized,
    /// Initializing
    Initializing,
    /// Running
    Running,
    /// Suspended
    Suspended,
    /// Stopped
    Stopped,
}

/// Runtime configuration.
#[derive(Clone, Copy, Debug, PartialEq, Eq, Structural)]
pub struct AndroidConfig {
    /// AOSP version
    pub aosp_version: u32,
    /// Memory allocation in MB
    pub memory_mb: u32,
    /// CPU cores allocated
    pub cpu_cores: u8,
    /// GPU acceleration enabled
    pub gpu_enabled: bool,
    /// Network access enabled
    pub network_enabled: bool,
}

impl Default for AndroidConfig {
    /// The default: AOSP 14, 4 GB, four cores, GPU and network on.
    fn default() -> (r: Self)
        ensures
            r == (AndroidConfig {
                aosp_version: 14u32,
                memory_mb: 4096u32,
                cpu_cores: 4u8,
                gpu_enabled: true,
                network_enabled: true,
            }),
    {
        AndroidConfig {
            aosp_version: 14,
            memory_mb: 4096,
            cpu_cores: 4,
            gpu_enabled: true,
            network_enabled: true,
        }
    }
}

/// An installed app.
#[derive(Debug)]
pub struct AndroidApp {
    /// Package name
    pub package_name: String,
    /// Version string
    pub version: String,
    /// Installed flag
    pub installed: bool,
}

/// Android runtime errors.
#[derive(Clone, Copy, Debug, PartialEq, Eq, Structural)]
pub enum AndroidError {
    /// Runtime already initialized
    AlreadyInitialized,
    /// Runtime not running
    NotRunning,
    /// Runtime not suspended
    NotSuspended,
    /// VM creation failed
    VmCreationFailed,
    /// App installation failed
    InstallFailed,
    /// App launch failed
    LaunchFailed,
}

/// The Android runtime.
#[derive(Debug)]
pub struct AndroidRuntime {
    /// Configuration
    config: AndroidConfig,
    /// Current status
    status: AndroidStatus,
    /// Protected VM id, once created
    vm_id: Option<u32>,
    /// Installed apps
    apps: Vec<AndroidApp>,
}

impl AndroidRuntime {
    /// Spec view of the configuration.
    pub closed spec fn spec_config(&self) -> AndroidConfig {
        self.config
    }

    /// Spec view of the status.
    pub closed spec fn spec_status(&self) -> AndroidStatus {
        self.status
    }

    /// Spec view of the VM id.
    pub closed spec fn spec_vm_id(&self) -> Option<u32> {
        self.vm_id
    }

    /// Spec view of the installed apps.
    pub closed spec fn spec_apps(&self) -> Seq<AndroidApp> {
        self.apps@
    }

    /// An uninitialized runtime with a configuration.
    pub fn new(config: AndroidConfig) -> (r: Self)
        ensures
            r.spec_config() == config,
            r.spec_status() == AndroidStatus::NotInitialized,
            r.spec_vm_id() is None,
            r.spec_apps().len() == 0,
    {
        AndroidRuntime { config, status: AndroidStatus::NotInitialized, vm_id: None, apps: Vec::new() }
    }

    /// Bring the runtime up: create the protected VM and start the
    /// system. Only an uninitialized runtime may start; afterwards it is
    /// running in VM 1.
    pub fn init(&mut self) -> (r: Result<(), AndroidError>)
        ensures
            final(self).spec_config() == old(self).spec_config(),
            final(self).spec_apps() == old(self).spec_apps(),
            if old(self).spec_status() == AndroidStatus::NotInitialized {
                r is Ok && final(self).spec_status() == AndroidStatus::Running && final(self).spec_vm_id() == Some(1u32)
            } else {
                r == Err::<(), AndroidError>(AndroidError::AlreadyInitialized) && *final(self)
                    == *old(self)
            },
    {
        match self.status {
            AndroidStatus::NotInitialized => {},
            _ => {
                return Err(AndroidError::AlreadyInitialized);
            },
        }
        self.status = AndroidStatus::Initializing;
        self.vm_id = Some(1);
        self.status = AndroidStatus::Running;
        Ok(())
    }

    /// Install an app. Parsing and verifying the package belongs to the
    /// platform layer; the record installed here carries the placeholder
    /// identity.
    pub fn install_app(&mut self, apk_path: &str) -> (r: Result<String, AndroidError>)
        ensures
            r is Ok,
            final(self).spec_apps().len() == old(self).spec_apps().len() + 1,
            final(self).spec_status() == old(self).spec_status(),
            final(self).spec_config() == old(self).spec_config(),
            final(self).spec_vm_id() == old(self).spec_vm_id(),
    {
        let name: String = "com.example.app".to_string();
        let app = AndroidApp {
            package_name: name.clone(),
            version: "1.0".to_string(),
            installed: true,
        };
        self.apps.push(app);
        Ok(name)
    }

    /// Launch an installed app; delivering the intent belongs to the
    /// platform layer.
    pub fn launch_app(&self, package_name: &str) -> (r: Result<(), AndroidError>)
        ensures
            r is Ok,
    {
        Ok(())
    }

    /// Suspend a running runtime.
    pub fn suspend(&mut self) -> (r: Result<(), AndroidError>)
        ensures
            final(self).spec_config() == old(self).spec_config(),
            final(self).spec_apps() == old(self).spec_apps(),
            final(self).spec_vm_id() == old(self).spec_vm_id(),
            if old(self).spec_status() == AndroidStatus::Running {
                r is Ok && final(self).spec_status() == AndroidStatus::Suspended
            } else {
                r == Err::<(), AndroidError>(AndroidError::NotRunning) && final(self).spec_status()
                    == old(self).spec_status()
            },
    {
        match self.status {
            AndroidStatus::Running => {},
            _ => {
                return Err(AndroidError::NotRunning);
            },
        }
        self.status = AndroidStatus::Suspended;
        Ok(())
    }

    /// Resume a suspended runtime.
    pub fn resume(&mut self) -> (r: Result<(), AndroidError>)
        ensures
            final(self).spec_config() == old(self).spec_config(),
            final(self).spec_apps() == old(self).spec_apps(),
            final(self).spec_vm_id() == old(self).spec_vm_id(),
            if old(self).spec_status() == AndroidStatus::Suspended {
                r is Ok && final(self).spec_status() == AndroidStatus::Running
            } else {
                r == Err::<(), AndroidError>(AndroidError::NotSuspended) && final(self).spec_status() == old(self).spec_status()
            },
    {
        match self.status {
            AndroidStatus::Suspended => {},
            _ => {
                return Err(AndroidError::NotSuspended);
            },
        }
        self.status = AndroidStatus::Running;
        Ok(())
    }

    /// Stop the runtime and release its VM, whatever state it was in.
    pub fn stop(&mut self) -> (r: Result<(), AndroidError>)
        ensures
            r is Ok,
            final(self).spec_status() == AndroidStatus::Stopped,
            final(self).spec_vm_id() is None,
            final(self).spec_config() == old(self).spec_config(),
            final(self).spec_apps() == old(self).spec_apps(),
    {
        self.status = AndroidStatus::Stopped;
        self.vm_id = None;
        Ok(())
    }

    /// The installed apps.
    pub fn get_apps(&self) -> (r: &Vec<AndroidApp>)
        ensures
            r@ == self.spec_apps(),
    {
        &self.apps
    }

    /// The current runtime status.
    pub fn get_status(&self) -> (r: AndroidStatus)
        ensures
            r == self.spec_status(),
    {
        self.status
    }
}

} // verus!
