use recoverable_messaging::models::{
    ApiError, ApiErrorBase, Display, ImageTemplateCustomizer, ImageTemplateFileCustomizer,
    ProvisioningErrorCode, StorageAccountType,
    ImageTemplateManagedImageSource, ImageTemplatePlatformImageSource,
    ImageTemplatePowerShellCustomizer, ImageTemplateRestartCustomizer,
    ImageTemplateSharedImageVersionSource, ImageTemplateShellCustomizer, ImageTemplateSourceUnion,
    ImageTemplateVmProfile, ImageTemplateWindowsUpdateCustomizer, InnerError,
    PlatformImagePurchasePlan, ProvisioningError, RunOutput, RunOutputCollection,
    RunOutputProperties, SubResource, VirtualNetworkConfig,
};

#[test]
fn error_models_start_empty() {
    let e = ApiError::new();
    assert!(e.details.is_empty());
    assert!(e.inner_error.is_none());
    assert!(e.code.is_none() && e.target.is_none() && e.message.is_none());
    let b = ApiErrorBase::new();
    assert!(b.code.is_none() && b.target.is_none() && b.message.is_none());
    let i = InnerError::new();
    assert!(i.exception_type.is_none() && i.error_detail.is_none());
    let p = ProvisioningError::new();
    assert!(p.provisioning_error_code.is_none() && p.message.is_none());
}

#[test]
fn customizers_keep_base_and_start_unset() {
    let base = ImageTemplateCustomizer::new();
    assert!(base.name.is_none());
    let file = ImageTemplateFileCustomizer::new(base.clone());
    assert_eq!(file.image_template_customizer, base);
    assert!(file.source_uri.is_none() && file.sha256_checksum.is_none());
    let shell = ImageTemplateShellCustomizer::new(base.clone());
    assert!(shell.inline.is_empty());
    let ps = ImageTemplatePowerShellCustomizer::new(base.clone());
    assert!(ps.inline.is_empty() && ps.valid_exit_codes.is_empty());
    assert!(ps.run_elevated.is_none() && ps.run_as_system.is_none());
    let restart = ImageTemplateRestartCustomizer::new(base.clone());
    assert!(restart.restart_command.is_none() && restart.restart_timeout.is_none());
    let wu = ImageTemplateWindowsUpdateCustomizer::new(base);
    assert!(wu.filters.is_empty() && wu.update_limit.is_none());
}

#[test]
fn sources_carry_their_ids() {
    let managed = ImageTemplateManagedImageSource::new("image-id".to_string());
    assert_eq!(managed.image_id, "image-id");
    let shared = ImageTemplateSharedImageVersionSource::new("version-id".to_string());
    assert_eq!(shared.image_version_id, "version-id");
    let platform = ImageTemplatePlatformImageSource::new();
    assert!(platform.publisher.is_none() && platform.plan_info.is_none());
    let union = ImageTemplateSourceUnion::ManagedImage(managed.clone());
    assert_eq!(union, ImageTemplateSourceUnion::ManagedImage(managed));
}

#[test]
fn run_outputs_and_profiles_start_empty() {
    let sub = SubResource::new("run-output".to_string());
    assert_eq!(sub.name, "run-output");
    assert!(sub.id.is_none() && sub.type_.is_none());
    let output = RunOutput::new(sub.clone());
    assert_eq!(output.sub_resource, sub);
    assert!(output.properties.is_none());
    let collection = RunOutputCollection::new();
    assert!(collection.value.is_empty() && collection.next_link.is_none());
    let properties = RunOutputProperties::new();
    assert!(properties.artifact_id.is_none() && properties.provisioning_state.is_none());
    let profile = ImageTemplateVmProfile::new();
    assert!(profile.vm_size.is_none() && profile.vnet_config.is_none());
    let vnet = VirtualNetworkConfig::new();
    assert!(vnet.subnet_id.is_none());
    let display = Display::new();
    assert!(display.provider.is_none() && display.operation.is_none());
}

#[test]
fn storage_account_type_wire_names() {
    assert_eq!(
        StorageAccountType::from_wire_name("Standard_LRS"),
        StorageAccountType::StandardLrs
    );
    assert_eq!(
        StorageAccountType::from_wire_name("Standard_ZRS"),
        StorageAccountType::StandardZrs
    );
    assert_eq!(
        StorageAccountType::from_wire_name("Premium_LRS"),
        StorageAccountType::UnknownValue("Premium_LRS".to_string())
    );
    assert_eq!(StorageAccountType::StandardLrs.wire_name(), "Standard_LRS");
    assert_eq!(StorageAccountType::StandardZrs.wire_name(), "Standard_ZRS");
    // An unrecognized name reads back unchanged.
    assert_eq!(
        StorageAccountType::from_wire_name("Premium_LRS").wire_name(),
        "Premium_LRS"
    );
}

#[test]
fn provisioning_error_code_wire_names() {
    assert_eq!(
        ProvisioningErrorCode::from_wire_name("BadPIRSource"),
        ProvisioningErrorCode::BadPirSource
    );
    assert_eq!(ProvisioningErrorCode::BadPirSource.wire_name(), "BadPIRSource");
    assert_eq!(
        ProvisioningErrorCode::from_wire_name("ServerError"),
        ProvisioningErrorCode::ServerError
    );
    assert_eq!(
        ProvisioningErrorCode::from_wire_name("SomethingNew"),
        ProvisioningErrorCode::UnknownValue("SomethingNew".to_string())
    );
    assert_eq!(
        ProvisioningErrorCode::from_wire_name("SomethingNew").wire_name(),
        "SomethingNew"
    );
    assert_eq!(
        ProvisioningErrorCode::from_wire_name("BadDistributeType"),
        ProvisioningErrorCode::BadDistributeType
    );
    assert_eq!(
        ProvisioningErrorCode::from_wire_name("BadCustomizerType"),
        ProvisioningErrorCode::BadCustomizerType
    );
}

#[test]
fn purchase_plan_keeps_fields() {
    let plan = PlatformImagePurchasePlan::new(
        "plan".to_string(),
        "product".to_string(),
        "publisher".to_string(),
    );
    assert_eq!(plan.plan_name, "plan");
    assert_eq!(plan.plan_product, "product");
    assert_eq!(plan.plan_publisher, "publisher");
}
