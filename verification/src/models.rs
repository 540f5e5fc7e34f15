//! Data models of the image-template management surface: plain records
//! exchanged with the service, with constructors that start from the
//! required fields and leave everything optional unset.

use vstd::prelude::*;

verus! {

/// Api error.
#[derive(Clone, Debug, PartialEq)]
pub struct ApiError {
    /// The Api error details.
    pub details: Vec<ApiErrorBase>,
    /// Inner error details.
    pub inner_error: Option<InnerError>,
    /// The error code.
    pub code: Option<String>,
    /// The target of the particular error.
    pub target: Option<String>,
    /// The error message.
    pub message: Option<String>,
}

impl ApiError {
    pub fn new() -> (r: Self)
        ensures
            r.details@ == Seq::<ApiErrorBase>::empty(),
            r.inner_error is None,
            r.code is None,
            r.target is None,
            r.message is None,
    {
        ApiError { details: Vec::new(), inner_error: None, code: None, target: None, message: None }
    }
}

/// Api error base.
#[derive(Clone, Debug, PartialEq)]
pub struct ApiErrorBase {
    /// The error code.
    pub code: Option<String>,
    /// The target of the particular error.
    pub target: Option<String>,
    /// The error message.
    pub message: Option<String>,
}

impl ApiErrorBase {
    pub fn new() -> (r: Self)
        ensures
            r.code is None,
            r.target is None,
            r.message is None,
    {
        ApiErrorBase { code: None, target: None, message: None }
    }
}

/// Describes a unit of image customization.
#[derive(Clone, Debug, PartialEq)]
pub struct ImageTemplateCustomizer {
    /// Friendly name to provide context on what this customization step
    /// does.
    pub name: Option<String>,
}

impl ImageTemplateCustomizer {
    pub fn new() -> (r: Self)
        ensures
            r.name is None,
    {
        ImageTemplateCustomizer { name: None }
    }
}

/// The type of customization tool used on the image.
#[derive(Clone, Debug, PartialEq)]
pub enum ImageTemplateCustomizerUnion {
    File(ImageTemplateFileCustomizer),
    PowerShell(ImageTemplatePowerShellCustomizer),
    WindowsRestart(ImageTemplateRestartCustomizer),
    Shell(ImageTemplateShellCustomizer),
    WindowsUpdate(ImageTemplateWindowsUpdateCustomizer),
}

/// Uploads files to VMs. Corresponds to Packer file provisioner.
#[derive(Clone, Debug, PartialEq)]
pub struct ImageTemplateFileCustomizer {
    pub image_template_customizer: ImageTemplateCustomizer,
    /// The URI of the file to be uploaded for customizing the VM.
    pub source_uri: Option<String>,
    /// SHA256 checksum of the file provided in the source URI.
    pub sha256_checksum: Option<String>,
    /// The absolute path to a file in the VM the upload goes to.
    pub destination: Option<String>,
}

impl ImageTemplateFileCustomizer {
    pub fn new(image_template_customizer: ImageTemplateCustomizer) -> (r: Self)
        ensures
            r.image_template_customizer == image_template_customizer,
            r.source_uri is None,
            r.sha256_checksum is None,
            r.destination is None,
    {
        ImageTemplateFileCustomizer {
            image_template_customizer,
            source_uri: None,
            sha256_checksum: None,
            destination: None,
        }
    }
}

/// The type of identity used for the image template; `NoIdentity` removes
/// any identities from the image template.
#[derive(Clone, Debug, PartialEq)]
pub enum Type {
    UserAssigned,
    NoIdentity,
}

/// State of the last run.
#[derive(Clone, Debug, PartialEq)]
pub enum RunState {
    Running,
    Canceling,
    Succeeded,
    PartiallySucceeded,
    Failed,
    Canceled,
}

/// Sub-state of the last run.
#[derive(Clone, Debug, PartialEq)]
pub enum RunSubState {
    Queued,
    Building,
    Customizing,
    Distributing,
}

/// Describes an image source that is a managed image in a customer
/// subscription.
#[derive(Clone, Debug, PartialEq)]
pub struct ImageTemplateManagedImageSource {
    /// ARM resource id of the managed image in customer subscription.
    pub image_id: String,
}

impl ImageTemplateManagedImageSource {
    pub fn new(image_id: String) -> (r: Self)
        ensures
            r.image_id == image_id,
    {
        ImageTemplateManagedImageSource { image_id }
    }
}

/// Describes an image source from the platform image gallery.
#[derive(Clone, Debug, PartialEq)]
pub struct ImageTemplatePlatformImageSource {
    /// Image publisher in the gallery.
    pub publisher: Option<String>,
    /// Image offer from the gallery.
    pub offer: Option<String>,
    /// Image sku from the gallery.
    pub sku: Option<String>,
    /// Image version from the gallery.
    pub version: Option<String>,
    /// Purchase plan configuration for the platform image.
    pub plan_info: Option<PlatformImagePurchasePlan>,
}

impl ImageTemplatePlatformImageSource {
    pub fn new() -> (r: Self)
        ensures
            r.publisher is None,
            r.offer is None,
            r.sku is None,
            r.version is None,
            r.plan_info is None,
    {
        ImageTemplatePlatformImageSource {
            publisher: None,
            offer: None,
            sku: None,
            version: None,
            plan_info: None,
        }
    }
}

/// Runs the specified PowerShell on the VM. Corresponds to Packer
/// powershell provisioner. Exactly one of script URI or inline can be
/// specified.
#[derive(Clone, Debug, PartialEq)]
pub struct ImageTemplatePowerShellCustomizer {
    pub image_template_customizer: ImageTemplateCustomizer,
    /// URI of the PowerShell script to be run for customizing.
    pub script_uri: Option<String>,
    /// SHA256 checksum of the script provided in the script URI.
    pub sha256_checksum: Option<String>,
    /// Array of PowerShell commands to execute.
    pub inline: Vec<String>,
    /// If specified, the script runs with elevated privileges.
    pub run_elevated: Option<bool>,
    /// If specified, the script runs elevated as the Local System user.
    pub run_as_system: Option<bool>,
    /// Valid exit codes for the script.
    pub valid_exit_codes: Vec<i64>,
}

impl ImageTemplatePowerShellCustomizer {
    pub fn new(image_template_customizer: ImageTemplateCustomizer) -> (r: Self)
        ensures
            r.image_template_customizer == image_template_customizer,
            r.script_uri is None,
            r.sha256_checksum is None,
            r.inline@ == Seq::<String>::empty(),
            r.run_elevated is None,
            r.run_as_system is None,
            r.valid_exit_codes@ == Seq::<i64>::empty(),
    {
        ImageTemplatePowerShellCustomizer {
            image_template_customizer,
            script_uri: None,
            sha256_checksum: None,
            inline: Vec::new(),
            run_elevated: None,
            run_as_system: None,
            valid_exit_codes: Vec::new(),
        }
    }
}

/// Reboots a VM and waits for it to come back online. Corresponds to
/// Packer windows-restart provisioner.
#[derive(Clone, Debug, PartialEq)]
pub struct ImageTemplateRestartCustomizer {
    pub image_template_customizer: ImageTemplateCustomizer,
    /// Command to execute the restart.
    pub restart_command: Option<String>,
    /// Command to check whether the restart succeeded.
    pub restart_check_command: Option<String>,
    /// Restart timeout as a string of magnitude and unit.
    pub restart_timeout: Option<String>,
}

impl ImageTemplateRestartCustomizer {
    pub fn new(image_template_customizer: ImageTemplateCustomizer) -> (r: Self)
        ensures
            r.image_template_customizer == image_template_customizer,
            r.restart_command is None,
            r.restart_check_command is None,
            r.restart_timeout is None,
    {
        ImageTemplateRestartCustomizer {
            image_template_customizer,
            restart_command: None,
            restart_check_command: None,
            restart_timeout: None,
        }
    }
}

/// Storage account type used to store the shared image.
#[derive(Clone, Debug, PartialEq)]
pub enum StorageAccountType {
    StandardLrs,
    StandardZrs,
    UnknownValue(String),
}

/// The name a storage account type carries on the wire.
pub open spec fn storage_account_type_wire(t: StorageAccountType) -> Seq<char> {
    match t {
        StorageAccountType::StandardLrs => "Standard_LRS"@,
        StorageAccountType::StandardZrs => "Standard_ZRS"@,
        StorageAccountType::UnknownValue(s) => s@,
    }
}

impl StorageAccountType {
    /// The storage account type named on the wire; an unrecognized name
    /// is kept as an unknown value, so the wire name always reads back.
    pub fn from_wire_name(s: &str) -> (r: Self)
        ensures
            s@ == "Standard_LRS"@ ==> r == StorageAccountType::StandardLrs,
            s@ == "Standard_ZRS"@ ==> r == StorageAccountType::StandardZrs,
            s@ != "Standard_LRS"@ && s@ != "Standard_ZRS"@ ==> (r matches
                StorageAccountType::UnknownValue(u) && u@ == s@),
            storage_account_type_wire(r) == s@,
    {
        proof {
            reveal_strlit("Standard_LRS");
            reveal_strlit("Standard_ZRS");
            assert("Standard_LRS"@[9] == 'L');
            assert("Standard_ZRS"@[9] == 'Z');
            assert("Standard_LRS"@ != "Standard_ZRS"@);
        }
        let owned = s.to_owned();
        if owned == "Standard_LRS".to_owned() {
            StorageAccountType::StandardLrs
        } else if owned == "Standard_ZRS".to_owned() {
            StorageAccountType::StandardZrs
        } else {
            StorageAccountType::UnknownValue(owned)
        }
    }

    /// The name this storage account type carries on the wire.
    pub fn wire_name(&self) -> (r: String)
        ensures
            r@ == storage_account_type_wire(*self),
    {
        match self {
            StorageAccountType::StandardLrs => "Standard_LRS".to_owned(),
            StorageAccountType::StandardZrs => "Standard_ZRS".to_owned(),
            StorageAccountType::UnknownValue(s) => s.clone(),
        }
    }
}

/// Describes an image source that is an image version in a shared image
/// gallery.
#[derive(Clone, Debug, PartialEq)]
pub struct ImageTemplateSharedImageVersionSource {
    /// ARM resource id of the image version in the shared image gallery.
    pub image_version_id: String,
}

impl ImageTemplateSharedImageVersionSource {
    pub fn new(image_version_id: String) -> (r: Self)
        ensures
            r.image_version_id == image_version_id,
    {
        ImageTemplateSharedImageVersionSource { image_version_id }
    }
}

/// Runs a shell script during the customization phase. Corresponds to
/// Packer shell provisioner. Exactly one of script URI or inline can be
/// specified.
#[derive(Clone, Debug, PartialEq)]
pub struct ImageTemplateShellCustomizer {
    pub image_template_customizer: ImageTemplateCustomizer,
    /// URI of the shell script to be run for customizing.
    pub script_uri: Option<String>,
    /// SHA256 checksum of the script provided in the script URI.
    pub sha256_checksum: Option<String>,
    /// Array of shell commands to execute.
    pub inline: Vec<String>,
}

impl ImageTemplateShellCustomizer {
    pub fn new(image_template_customizer: ImageTemplateCustomizer) -> (r: Self)
        ensures
            r.image_template_customizer == image_template_customizer,
            r.script_uri is None,
            r.sha256_checksum is None,
            r.inline@ == Seq::<String>::empty(),
    {
        ImageTemplateShellCustomizer {
            image_template_customizer,
            script_uri: None,
            sha256_checksum: None,
            inline: Vec::new(),
        }
    }
}

/// Specifies the type of source image to start with.
#[derive(Clone, Debug, PartialEq)]
pub enum ImageTemplateSourceUnion {
    ManagedImage(ImageTemplateManagedImageSource),
    PlatformImage(ImageTemplatePlatformImageSource),
    SharedImageVersion(ImageTemplateSharedImageVersionSource),
}

/// Describes the virtual machine used to build, customize and capture
/// images.
#[derive(Clone, Debug, PartialEq)]
pub struct ImageTemplateVmProfile {
    /// Size of the virtual machine used to build, customize and capture
    /// images.
    pub vm_size: Option<String>,
    /// Size of the OS disk in GB.
    pub os_disk_size_gb: Option<i64>,
    /// Virtual network configuration.
    pub vnet_config: Option<VirtualNetworkConfig>,
}

impl ImageTemplateVmProfile {
    pub fn new() -> (r: Self)
        ensures
            r.vm_size is None,
            r.os_disk_size_gb is None,
            r.vnet_config is None,
    {
        ImageTemplateVmProfile { vm_size: None, os_disk_size_gb: None, vnet_config: None }
    }
}

/// Installs Windows updates. Corresponds to the Packer Windows update
/// provisioner.
#[derive(Clone, Debug, PartialEq)]
pub struct ImageTemplateWindowsUpdateCustomizer {
    pub image_template_customizer: ImageTemplateCustomizer,
    /// Criteria to search updates.
    pub search_criteria: Option<String>,
    /// Array of filters to select updates to apply.
    pub filters: Vec<String>,
    /// Maximum number of updates to apply at a time.
    pub update_limit: Option<i64>,
}

impl ImageTemplateWindowsUpdateCustomizer {
    pub fn new(image_template_customizer: ImageTemplateCustomizer) -> (r: Self)
        ensures
            r.image_template_customizer == image_template_customizer,
            r.search_criteria is None,
            r.filters@ == Seq::<String>::empty(),
            r.update_limit is None,
    {
        ImageTemplateWindowsUpdateCustomizer {
            image_template_customizer,
            search_criteria: None,
            filters: Vec::new(),
            update_limit: None,
        }
    }
}

/// Inner error details.
#[derive(Clone, Debug, PartialEq)]
pub struct InnerError {
    /// The exception type.
    pub exception_type: Option<String>,
    /// The internal error message or exception dump.
    pub error_detail: Option<String>,
}

impl InnerError {
    pub fn new() -> (r: Self)
        ensures
            r.exception_type is None,
            r.error_detail is None,
    {
        InnerError { exception_type: None, error_detail: None }
    }
}

/// How an operation is presented.
#[derive(Clone, Debug, PartialEq)]
pub struct Display {
    pub provider: Option<String>,
    /// For example: read, write, delete, or an action.
    pub operation: Option<String>,
    pub resource: Option<String>,
    pub description: Option<String>,
}

impl Display {
    pub fn new() -> (r: Self)
        ensures
            r.provider is None,
            r.operation is None,
            r.resource is None,
            r.description is None,
    {
        Display { provider: None, operation: None, resource: None, description: None }
    }
}

/// Purchase plan configuration for a platform image.
#[derive(Clone, Debug, PartialEq)]
pub struct PlatformImagePurchasePlan {
    /// Name of the purchase plan.
    pub plan_name: String,
    /// Product of the purchase plan.
    pub plan_product: String,
    /// Publisher of the purchase plan.
    pub plan_publisher: String,
}

impl PlatformImagePurchasePlan {
    pub fn new(plan_name: String, plan_product: String, plan_publisher: String) -> (r: Self)
        ensures
            r.plan_name == plan_name,
            r.plan_product == plan_product,
            r.plan_publisher == plan_publisher,
    {
        PlatformImagePurchasePlan { plan_name, plan_product, plan_publisher }
    }
}

/// Describes the error that happened when creating or updating an image
/// template.
#[derive(Clone, Debug, PartialEq)]
pub struct ProvisioningError {
    /// Error code of the provisioning failure.
    pub provisioning_error_code: Option<ProvisioningErrorCode>,
    /// Verbose error message about the provisioning failure.
    pub message: Option<String>,
}

impl ProvisioningError {
    pub fn new() -> (r: Self)
        ensures
            r.provisioning_error_code is None,
            r.message is None,
    {
        ProvisioningError { provisioning_error_code: None, message: None }
    }
}

/// Error code of a provisioning failure.
#[derive(Clone, Debug, PartialEq)]
pub enum ProvisioningErrorCode {
    BadSourceType,
    BadPirSource,
    BadManagedImageSource,
    BadSharedImageVersionSource,
    BadCustomizerType,
    UnsupportedCustomizerType,
    NoCustomizerScript,
    BadDistributeType,
    BadSharedImageDistribute,
    ServerError,
    Other,
    UnknownValue(String),
}

/// The name a provisioning error code carries on the wire.
pub open spec fn provisioning_error_code_wire(c: ProvisioningErrorCode) -> Seq<char> {
    match c {
        ProvisioningErrorCode::BadSourceType => "BadSourceType"@,
        ProvisioningErrorCode::BadPirSource => "BadPIRSource"@,
        ProvisioningErrorCode::BadManagedImageSource => "BadManagedImageSource"@,
        ProvisioningErrorCode::BadSharedImageVersionSource => "BadSharedImageVersionSource"@,
        ProvisioningErrorCode::BadCustomizerType => "BadCustomizerType"@,
        ProvisioningErrorCode::UnsupportedCustomizerType => "UnsupportedCustomizerType"@,
        ProvisioningErrorCode::NoCustomizerScript => "NoCustomizerScript"@,
        ProvisioningErrorCode::BadDistributeType => "BadDistributeType"@,
        ProvisioningErrorCode::BadSharedImageDistribute => "BadSharedImageDistribute"@,
        ProvisioningErrorCode::ServerError => "ServerError"@,
        ProvisioningErrorCode::Other => "Other"@,
        ProvisioningErrorCode::UnknownValue(s) => s@,
    }
}

impl ProvisioningErrorCode {
    /// The provisioning error code named on the wire; an unrecognized
    /// name is kept as an unknown value, so the wire name always reads
    /// back.
    pub fn from_wire_name(s: &str) -> (r: Self)
        ensures
            s@ == "BadSourceType"@ ==> r == ProvisioningErrorCode::BadSourceType,
            s@ == "BadPIRSource"@ ==> r == ProvisioningErrorCode::BadPirSource,
            s@ == "BadManagedImageSource"@ ==> r == ProvisioningErrorCode::BadManagedImageSource,
            s@ == "BadSharedImageVersionSource"@ ==> r
                == ProvisioningErrorCode::BadSharedImageVersionSource,
            s@ == "BadCustomizerType"@ ==> r == ProvisioningErrorCode::BadCustomizerType,
            s@ == "UnsupportedCustomizerType"@ ==> r
                == ProvisioningErrorCode::UnsupportedCustomizerType,
            s@ == "NoCustomizerScript"@ ==> r == ProvisioningErrorCode::NoCustomizerScript,
            s@ == "BadDistributeType"@ ==> r == ProvisioningErrorCode::BadDistributeType,
            s@ == "BadSharedImageDistribute"@ ==> r
                == ProvisioningErrorCode::BadSharedImageDistribute,
            s@ == "ServerError"@ ==> r == ProvisioningErrorCode::ServerError,
            s@ == "Other"@ ==> r == ProvisioningErrorCode::Other,
            provisioning_error_code_wire(r) == s@,
    {
        proof {
            reveal_strlit("BadSourceType");
            reveal_strlit("BadPIRSource");
            reveal_strlit("BadManagedImageSource");
            reveal_strlit("BadSharedImageVersionSource");
            reveal_strlit("BadCustomizerType");
            reveal_strlit("UnsupportedCustomizerType");
            reveal_strlit("NoCustomizerScript");
            reveal_strlit("BadDistributeType");
            reveal_strlit("BadSharedImageDistribute");
            reveal_strlit("ServerError");
            reveal_strlit("Other");
            assert("BadSourceType"@.len() == 13);
            assert("BadPIRSource"@.len() == 12);
            assert("BadManagedImageSource"@.len() == 21);
            assert("BadSharedImageVersionSource"@.len() == 27);
            assert("BadCustomizerType"@.len() == 17);
            assert("UnsupportedCustomizerType"@.len() == 25);
            assert("NoCustomizerScript"@.len() == 18);
            assert("BadDistributeType"@.len() == 17);
            assert("BadSharedImageDistribute"@.len() == 24);
            assert("ServerError"@.len() == 11);
            assert("Other"@.len() == 5);
            assert("BadCustomizerType"@[3] == 'C');
            assert("BadDistributeType"@[3] == 'D');
            assert("BadSourceType"@ != "BadPIRSource"@);
            assert("BadSourceType"@ != "BadManagedImageSource"@);
            assert("BadSourceType"@ != "BadSharedImageVersionSource"@);
            assert("BadSourceType"@ != "BadCustomizerType"@);
            assert("BadSourceType"@ != "UnsupportedCustomizerType"@);
            assert("BadSourceType"@ != "NoCustomizerScript"@);
            assert("BadSourceType"@ != "BadDistributeType"@);
            assert("BadSourceType"@ != "BadSharedImageDistribute"@);
            assert("BadSourceType"@ != "ServerError"@);
            assert("BadSourceType"@ != "Other"@);
            assert("BadPIRSource"@ != "BadManagedImageSource"@);
            assert("BadPIRSource"@ != "BadSharedImageVersionSource"@);
            assert("BadPIRSource"@ != "BadCustomizerType"@);
            assert("BadPIRSource"@ != "UnsupportedCustomizerType"@);
            assert("BadPIRSource"@ != "NoCustomizerScript"@);
            assert("BadPIRSource"@ != "BadDistributeType"@);
            assert("BadPIRSource"@ != "BadSharedImageDistribute"@);
            assert("BadPIRSource"@ != "ServerError"@);
            assert("BadPIRSource"@ != "Other"@);
            assert("BadManagedImageSource"@ != "BadSharedImageVersionSource"@);
            assert("BadManagedImageSource"@ != "BadCustomizerType"@);
            assert("BadManagedImageSource"@ != "UnsupportedCustomizerType"@);
            assert("BadManagedImageSource"@ != "NoCustomizerScript"@);
            assert("BadManagedImageSource"@ != "BadDistributeType"@);
            assert("BadManagedImageSource"@ != "BadSharedImageDistribute"@);
            assert("BadManagedImageSource"@ != "ServerError"@);
            assert("BadManagedImageSource"@ != "Other"@);
            assert("BadSharedImageVersionSource"@ != "BadCustomizerType"@);
            assert("BadSharedImageVersionSource"@ != "UnsupportedCustomizerType"@);
            assert("BadSharedImageVersionSource"@ != "NoCustomizerScript"@);
            assert("BadSharedImageVersionSource"@ != "BadDistributeType"@);
            assert("BadSharedImageVersionSource"@ != "BadSharedImageDistribute"@);
            assert("BadSharedImageVersionSource"@ != "ServerError"@);
            assert("BadSharedImageVersionSource"@ != "Other"@);
            assert("BadCustomizerType"@ != "UnsupportedCustomizerType"@);
            assert("BadCustomizerType"@ != "NoCustomizerScript"@);
            assert("BadCustomizerType"@ != "BadDistributeType"@);
            assert("BadCustomizerType"@ != "BadSharedImageDistribute"@);
            assert("BadCustomizerType"@ != "ServerError"@);
            assert("BadCustomizerType"@ != "Other"@);
            assert("UnsupportedCustomizerType"@ != "NoCustomizerScript"@);
            assert("UnsupportedCustomizerType"@ != "BadDistributeType"@);
            assert("UnsupportedCustomizerType"@ != "BadSharedImageDistribute"@);
            assert("UnsupportedCustomizerType"@ != "ServerError"@);
            assert("UnsupportedCustomizerType"@ != "Other"@);
            assert("NoCustomizerScript"@ != "BadDistributeType"@);
            assert("NoCustomizerScript"@ != "BadSharedImageDistribute"@);
            assert("NoCustomizerScript"@ != "ServerError"@);
            assert("NoCustomizerScript"@ != "Other"@);
            assert("BadDistributeType"@ != "BadSharedImageDistribute"@);
            assert("BadDistributeType"@ != "ServerError"@);
            assert("BadDistributeType"@ != "Other"@);
            assert("BadSharedImageDistribute"@ != "ServerError"@);
            assert("BadSharedImageDistribute"@ != "Other"@);
            assert("ServerError"@ != "Other"@);
        }
        let owned = s.to_owned();
        if owned == "BadSourceType".to_owned() {
            ProvisioningErrorCode::BadSourceType
        } else if owned == "BadPIRSource".to_owned() {
            ProvisioningErrorCode::BadPirSource
        } else if owned == "BadManagedImageSource".to_owned() {
            ProvisioningErrorCode::BadManagedImageSource
        } else if owned == "BadSharedImageVersionSource".to_owned() {
            ProvisioningErrorCode::BadSharedImageVersionSource
        } else if owned == "BadCustomizerType".to_owned() {
            ProvisioningErrorCode::BadCustomizerType
        } else if owned == "UnsupportedCustomizerType".to_owned() {
            ProvisioningErrorCode::UnsupportedCustomizerType
        } else if owned == "NoCustomizerScript".to_owned() {
            ProvisioningErrorCode::NoCustomizerScript
        } else if owned == "BadDistributeType".to_owned() {
            ProvisioningErrorCode::BadDistributeType
        } else if owned == "BadSharedImageDistribute".to_owned() {
            ProvisioningErrorCode::BadSharedImageDistribute
        } else if owned == "ServerError".to_owned() {
            ProvisioningErrorCode::ServerError
        } else if owned == "Other".to_owned() {
            ProvisioningErrorCode::Other
        } else {
            ProvisioningErrorCode::UnknownValue(owned)
        }
    }

    /// The name this provisioning error code carries on the wire.
    pub fn wire_name(&self) -> (r: String)
        ensures
            r@ == provisioning_error_code_wire(*self),
    {
        match self {
            ProvisioningErrorCode::BadSourceType => "BadSourceType".to_owned(),
            ProvisioningErrorCode::BadPirSource => "BadPIRSource".to_owned(),
            ProvisioningErrorCode::BadManagedImageSource => "BadManagedImageSource".to_owned(),
            ProvisioningErrorCode::BadSharedImageVersionSource => {
                "BadSharedImageVersionSource".to_owned()
            },
            ProvisioningErrorCode::BadCustomizerType => "BadCustomizerType".to_owned(),
            ProvisioningErrorCode::UnsupportedCustomizerType => {
                "UnsupportedCustomizerType".to_owned()
            },
            ProvisioningErrorCode::NoCustomizerScript => "NoCustomizerScript".to_owned(),
            ProvisioningErrorCode::BadDistributeType => "BadDistributeType".to_owned(),
            ProvisioningErrorCode::BadSharedImageDistribute => {
                "BadSharedImageDistribute".to_owned()
            },
            ProvisioningErrorCode::ServerError => "ServerError".to_owned(),
            ProvisioningErrorCode::Other => "Other".to_owned(),
            ProvisioningErrorCode::UnknownValue(s) => s.clone(),
        }
    }
}

/// Provisioning state of the resource.
#[derive(Clone, Debug, PartialEq)]
pub enum ProvisioningState {
    Creating,
    Updating,
    Succeeded,
    Failed,
    Deleting,
}

/// Represents an output created by running an image template.
#[derive(Clone, Debug, PartialEq)]
pub struct RunOutput {
    pub sub_resource: SubResource,
    /// Describes the properties of a run output.
    pub properties: Option<RunOutputProperties>,
}

impl RunOutput {
    pub fn new(sub_resource: SubResource) -> (r: Self)
        ensures
            r.sub_resource == sub_resource,
            r.properties is None,
    {
        RunOutput { sub_resource, properties: None }
    }
}

/// The result of the list-run-outputs operation.
#[derive(Clone, Debug, PartialEq)]
pub struct RunOutputCollection {
    /// An array of run outputs.
    pub value: Vec<RunOutput>,
    /// The continuation token.
    pub next_link: Option<String>,
}

impl RunOutputCollection {
    pub fn new() -> (r: Self)
        ensures
            r.value@ == Seq::<RunOutput>::empty(),
            r.next_link is None,
    {
        RunOutputCollection { value: Vec::new(), next_link: None }
    }
}

/// Describes the properties of a run output.
#[derive(Clone, Debug, PartialEq)]
pub struct RunOutputProperties {
    /// The resource id of the artifact.
    pub artifact_id: Option<String>,
    /// The location URI of the artifact.
    pub artifact_uri: Option<String>,
    /// Provisioning state of the resource.
    pub provisioning_state: Option<ProvisioningState>,
}

impl RunOutputProperties {
    pub fn new() -> (r: Self)
        ensures
            r.artifact_id is None,
            r.artifact_uri is None,
            r.provisioning_state is None,
    {
        RunOutputProperties { artifact_id: None, artifact_uri: None, provisioning_state: None }
    }
}

/// The sub-resource model definition.
#[derive(Clone, Debug, PartialEq)]
pub struct SubResource {
    /// Resource id.
    pub id: Option<String>,
    /// Resource name.
    pub name: String,
    /// Resource type.
    pub type_: Option<String>,
}

impl SubResource {
    pub fn new(name: String) -> (r: Self)
        ensures
            r.id is None,
            r.name == name,
            r.type_ is None,
    {
        SubResource { id: None, name, type_: None }
    }
}

/// Virtual network configuration.
#[derive(Clone, Debug, PartialEq)]
pub struct VirtualNetworkConfig {
    /// Resource id of a pre-existing subnet.
    pub subnet_id: Option<String>,
}

impl VirtualNetworkConfig {
    pub fn new() -> (r: Self)
        ensures
            r.subnet_id is None,
    {
        VirtualNetworkConfig { subnet_id: None }
    }
}

} // verus!
