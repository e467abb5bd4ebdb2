//! Windows well-known SID types, for use with the Windows functions that
//! create and classify well-known SIDs.

use vstd::prelude::*;

pub use WellKnownSidType::{
    WinNullSid,
    WinWorldSid,
    WinLocalSid,
    WinCreatorOwnerSid,
    WinCreatorGroupSid,
    WinCreatorOwnerServerSid,
    WinCreatorGroupServerSid,
    WinNtAuthoritySid,
    WinDialupSid,
    WinNetworkSid,
    WinBatchSid,
    WinInteractiveSid,
    WinServiceSid,
    WinAnonymousSid,
    WinProxySid,
    WinEnterpriseControllersSid,
    WinSelfSid,
    WinAuthenticatedUserSid,
    WinRestrictedCodeSid,
    WinTerminalServerSid,
    WinRemoteLogonIdSid,
    WinLogonIdsSid,
    WinLocalSystemSid,
    WinLocalServiceSid,
    WinNetworkServiceSid,
    WinBuiltinDomainSid,
    WinBuiltinAdministratorsSid,
    WinBuiltinUsersSid,
    WinBuiltinGuestsSid,
    WinBuiltinPowerUsersSid,
    WinBuiltinAccountOperatorsSid,
    WinBuiltinSystemOperatorsSid,
    WinBuiltinPrintOperatorsSid,
    WinBuiltinBackupOperatorsSid,
    WinBuiltinReplicatorSid,
    WinBuiltinPreWindows2000CompatibleAccessSid,
    WinBuiltinRemoteDesktopUsersSid,
    WinBuiltinNetworkConfigurationOperatorsSid,
    WinAccountAdministratorSid,
    WinAccountGuestSid,
    WinAccountKrbtgtSid,
    WinAccountDomainAdminsSid,
    WinAccountDomainUsersSid,
    WinAccountDomainGuestsSid,
    WinAccountComputersSid,
    WinAccountControllersSid,
    WinAccountCertAdminsSid,
    WinAccountSchemaAdminsSid,
    WinAccountEnterpriseAdminsSid,
    WinAccountPolicyAdminsSid,
    WinAccountRasAndIasServersSid,
    WinNTLMAuthenticationSid,
    WinDigestAuthenticationSid,
    WinSChannelAuthenticationSid,
    WinThisOrganizationSid,
    WinOtherOrganizationSid,
    WinBuiltinIncomingForestTrustBuildersSid,
    WinBuiltinPerfMonitoringUsersSid,
    WinBuiltinPerfLoggingUsersSid,
    WinBuiltinAuthorizationAccessSid,
    WinBuiltinTerminalServerLicenseServersSid,
    WinBuiltinDCOMUsersSid,
    WinBuiltinIUsersSid,
    WinIUserSid,
    WinBuiltinCryptoOperatorsSid,
    WinUntrustedLabelSid,
    WinLowLabelSid,
    WinMediumLabelSid,
    WinHighLabelSid,
    WinSystemLabelSid,
    WinWriteRestrictedCodeSid,
    WinCreatorOwnerRightsSid,
    WinCacheablePrincipalsGroupSid,
    WinNonCacheablePrincipalsGroupSid,
    WinEnterpriseReadonlyControllersSid,
    WinAccountReadonlyControllersSid,
    WinBuiltinEventLogReadersGroup,
    WinNewEnterpriseReadonlyControllersSid,
    WinBuiltinCertSvcDComAccessGroup,
    WinMediumPlusLabelSid,
    WinLocalLogonSid,
    WinConsoleLogonSid,
    WinThisOrganizationCertificateSid,
    WinApplicationPackageAuthoritySid,
    WinBuiltinAnyPackageSid,
    WinCapabilityInternetClientSid,
    WinCapabilityInternetClientServerSid,
    WinCapabilityPrivateNetworkClientServerSid,
    WinCapabilityPicturesLibrarySid,
    WinCapabilityVideosLibrarySid,
    WinCapabilityMusicLibrarySid,
    WinCapabilityDocumentsLibrarySid,
    WinCapabilitySharedUserCertificatesSid,
    WinCapabilityEnterpriseAuthenticationSid,
    WinCapabilityRemovableStorageSid,
    WinBuiltinRDSRemoteAccessServersSid,
    WinBuiltinRDSEndpointServersSid,
    WinBuiltinRDSManagementServersSid,
    WinUserModeDriversSid,
    WinBuiltinHyperVAdminsSid,
    WinAccountCloneableControllersSid,
    WinBuiltinAccessControlAssistanceOperatorsSid,
    WinBuiltinRemoteManagementUsersSid,
    WinAuthenticationAuthorityAssertedSid,
    WinAuthenticationServiceAssertedSid,
    WinLocalAccountSid,
    WinLocalAccountAndAdministratorSid,
    WinAccountProtectedUsersSid,
    WinCapabilityAppointmentsSid,
    WinCapabilityContactsSid,
    WinAccountDefaultSystemManagedSid,
    WinBuiltinDefaultSystemManagedGroupSid,
    WinBuiltinStorageReplicaAdminsSid,
    WinAccountKeyAdminsSid,
    WinAccountEnterpriseKeyAdminsSid,
    WinAuthenticationKeyTrustSid,
    WinAuthenticationKeyPropertyMFASid,
    WinAuthenticationKeyPropertyAttestationSid,
    WinAuthenticationFreshKeyAuthSid,
    WinBuiltinDeviceOwnersSid,
    WinBuiltinUserModeHardwareOperatorsSid,
    WinBuiltinOpenSSHUsersSid,
};

verus! {

/// A Windows well-known SID type.
///
/// Each variant stands for the member of Windows' `WELL_KNOWN_SID_TYPE`
/// enumeration of the same name, so arbitrary integers cannot be used as
/// well-known SID types. The variants are also available directly in this
/// module, such as [`WinLocalSystemSid`].
#[derive(Clone, Copy, Debug, Eq, Hash, PartialEq, Structural)]
pub enum WellKnownSidType {
    WinNullSid,
    WinWorldSid,
    WinLocalSid,
    WinCreatorOwnerSid,
    WinCreatorGroupSid,
    WinCreatorOwnerServerSid,
    WinCreatorGroupServerSid,
    WinNtAuthoritySid,
    WinDialupSid,
    WinNetworkSid,
    WinBatchSid,
    WinInteractiveSid,
    WinServiceSid,
    WinAnonymousSid,
    WinProxySid,
    WinEnterpriseControllersSid,
    WinSelfSid,
    WinAuthenticatedUserSid,
    WinRestrictedCodeSid,
    WinTerminalServerSid,
    WinRemoteLogonIdSid,
    WinLogonIdsSid,
    WinLocalSystemSid,
    WinLocalServiceSid,
    WinNetworkServiceSid,
    WinBuiltinDomainSid,
    WinBuiltinAdministratorsSid,
    WinBuiltinUsersSid,
    WinBuiltinGuestsSid,
    WinBuiltinPowerUsersSid,
    WinBuiltinAccountOperatorsSid,
    WinBuiltinSystemOperatorsSid,
    WinBuiltinPrintOperatorsSid,
    WinBuiltinBackupOperatorsSid,
    WinBuiltinReplicatorSid,
    WinBuiltinPreWindows2000CompatibleAccessSid,
    WinBuiltinRemoteDesktopUsersSid,
    WinBuiltinNetworkConfigurationOperatorsSid,
    WinAccountAdministratorSid,
    WinAccountGuestSid,
    WinAccountKrbtgtSid,
    WinAccountDomainAdminsSid,
    WinAccountDomainUsersSid,
    WinAccountDomainGuestsSid,
    WinAccountComputersSid,
    WinAccountControllersSid,
    WinAccountCertAdminsSid,
    WinAccountSchemaAdminsSid,
    WinAccountEnterpriseAdminsSid,
    WinAccountPolicyAdminsSid,
    WinAccountRasAndIasServersSid,
    WinNTLMAuthenticationSid,
    WinDigestAuthenticationSid,
    WinSChannelAuthenticationSid,
    WinThisOrganizationSid,
    WinOtherOrganizationSid,
    WinBuiltinIncomingForestTrustBuildersSid,
    WinBuiltinPerfMonitoringUsersSid,
    WinBuiltinPerfLoggingUsersSid,
    WinBuiltinAuthorizationAccessSid,
    WinBuiltinTerminalServerLicenseServersSid,
    WinBuiltinDCOMUsersSid,
    WinBuiltinIUsersSid,
    WinIUserSid,
    WinBuiltinCryptoOperatorsSid,
    WinUntrustedLabelSid,
    WinLowLabelSid,
    WinMediumLabelSid,
    WinHighLabelSid,
    WinSystemLabelSid,
    WinWriteRestrictedCodeSid,
    WinCreatorOwnerRightsSid,
    WinCacheablePrincipalsGroupSid,
    WinNonCacheablePrincipalsGroupSid,
    WinEnterpriseReadonlyControllersSid,
    WinAccountReadonlyControllersSid,
    WinBuiltinEventLogReadersGroup,
    WinNewEnterpriseReadonlyControllersSid,
    WinBuiltinCertSvcDComAccessGroup,
    WinMediumPlusLabelSid,
    WinLocalLogonSid,
    WinConsoleLogonSid,
    WinThisOrganizationCertificateSid,
    WinApplicationPackageAuthoritySid,
    WinBuiltinAnyPackageSid,
    WinCapabilityInternetClientSid,
    WinCapabilityInternetClientServerSid,
    WinCapabilityPrivateNetworkClientServerSid,
    WinCapabilityPicturesLibrarySid,
    WinCapabilityVideosLibrarySid,
    WinCapabilityMusicLibrarySid,
    WinCapabilityDocumentsLibrarySid,
    WinCapabilitySharedUserCertificatesSid,
    WinCapabilityEnterpriseAuthenticationSid,
    WinCapabilityRemovableStorageSid,
    WinBuiltinRDSRemoteAccessServersSid,
    WinBuiltinRDSEndpointServersSid,
    WinBuiltinRDSManagementServersSid,
    WinUserModeDriversSid,
    WinBuiltinHyperVAdminsSid,
    WinAccountCloneableControllersSid,
    WinBuiltinAccessControlAssistanceOperatorsSid,
    WinBuiltinRemoteManagementUsersSid,
    WinAuthenticationAuthorityAssertedSid,
    WinAuthenticationServiceAssertedSid,
    WinLocalAccountSid,
    WinLocalAccountAndAdministratorSid,
    WinAccountProtectedUsersSid,
    WinCapabilityAppointmentsSid,
    WinCapabilityContactsSid,
    WinAccountDefaultSystemManagedSid,
    WinBuiltinDefaultSystemManagedGroupSid,
    WinBuiltinStorageReplicaAdminsSid,
    WinAccountKeyAdminsSid,
    WinAccountEnterpriseKeyAdminsSid,
    WinAuthenticationKeyTrustSid,
    WinAuthenticationKeyPropertyMFASid,
    WinAuthenticationKeyPropertyAttestationSid,
    WinAuthenticationFreshKeyAuthSid,
    WinBuiltinDeviceOwnersSid,
    WinBuiltinUserModeHardwareOperatorsSid,
    WinBuiltinOpenSSHUsersSid,
}

/// The value of Windows' `WELL_KNOWN_SID_TYPE` enumeration for each type.
pub open spec fn well_known_value(t: WellKnownSidType) -> i32 {
    match t {
        WellKnownSidType::WinNullSid => 0,
        WellKnownSidType::WinWorldSid => 1,
        WellKnownSidType::WinLocalSid => 2,
        WellKnownSidType::WinCreatorOwnerSid => 3,
        WellKnownSidType::WinCreatorGroupSid => 4,
        WellKnownSidType::WinCreatorOwnerServerSid => 5,
        WellKnownSidType::WinCreatorGroupServerSid => 6,
        WellKnownSidType::WinNtAuthoritySid => 7,
        WellKnownSidType::WinDialupSid => 8,
        WellKnownSidType::WinNetworkSid => 9,
        WellKnownSidType::WinBatchSid => 10,
        WellKnownSidType::WinInteractiveSid => 11,
        WellKnownSidType::WinServiceSid => 12,
        WellKnownSidType::WinAnonymousSid => 13,
        WellKnownSidType::WinProxySid => 14,
        WellKnownSidType::WinEnterpriseControllersSid => 15,
        WellKnownSidType::WinSelfSid => 16,
        WellKnownSidType::WinAuthenticatedUserSid => 17,
        WellKnownSidType::WinRestrictedCodeSid => 18,
        WellKnownSidType::WinTerminalServerSid => 19,
        WellKnownSidType::WinRemoteLogonIdSid => 20,
        WellKnownSidType::WinLogonIdsSid => 21,
        WellKnownSidType::WinLocalSystemSid => 22,
        WellKnownSidType::WinLocalServiceSid => 23,
        WellKnownSidType::WinNetworkServiceSid => 24,
        WellKnownSidType::WinBuiltinDomainSid => 25,
        WellKnownSidType::WinBuiltinAdministratorsSid => 26,
        WellKnownSidType::WinBuiltinUsersSid => 27,
        WellKnownSidType::WinBuiltinGuestsSid => 28,
        WellKnownSidType::WinBuiltinPowerUsersSid => 29,
        WellKnownSidType::WinBuiltinAccountOperatorsSid => 30,
        WellKnownSidType::WinBuiltinSystemOperatorsSid => 31,
        WellKnownSidType::WinBuiltinPrintOperatorsSid => 32,
        WellKnownSidType::WinBuiltinBackupOperatorsSid => 33,
        WellKnownSidType::WinBuiltinReplicatorSid => 34,
        WellKnownSidType::WinBuiltinPreWindows2000CompatibleAccessSid => 35,
        WellKnownSidType::WinBuiltinRemoteDesktopUsersSid => 36,
        WellKnownSidType::WinBuiltinNetworkConfigurationOperatorsSid => 37,
        WellKnownSidType::WinAccountAdministratorSid => 38,
        WellKnownSidType::WinAccountGuestSid => 39,
        WellKnownSidType::WinAccountKrbtgtSid => 40,
        WellKnownSidType::WinAccountDomainAdminsSid => 41,
        WellKnownSidType::WinAccountDomainUsersSid => 42,
        WellKnownSidType::WinAccountDomainGuestsSid => 43,
        WellKnownSidType::WinAccountComputersSid => 44,
        WellKnownSidType::WinAccountControllersSid => 45,
        WellKnownSidType::WinAccountCertAdminsSid => 46,
        WellKnownSidType::WinAccountSchemaAdminsSid => 47,
        WellKnownSidType::WinAccountEnterpriseAdminsSid => 48,
        WellKnownSidType::WinAccountPolicyAdminsSid => 49,
        WellKnownSidType::WinAccountRasAndIasServersSid => 50,
        WellKnownSidType::WinNTLMAuthenticationSid => 51,
        WellKnownSidType::WinDigestAuthenticationSid => 52,
        WellKnownSidType::WinSChannelAuthenticationSid => 53,
        WellKnownSidType::WinThisOrganizationSid => 54,
        WellKnownSidType::WinOtherOrganizationSid => 55,
        WellKnownSidType::WinBuiltinIncomingForestTrustBuildersSid => 56,
        WellKnownSidType::WinBuiltinPerfMonitoringUsersSid => 57,
        WellKnownSidType::WinBuiltinPerfLoggingUsersSid => 58,
        WellKnownSidType::WinBuiltinAuthorizationAccessSid => 59,
        WellKnownSidType::WinBuiltinTerminalServerLicenseServersSid => 60,
        WellKnownSidType::WinBuiltinDCOMUsersSid => 61,
        WellKnownSidType::WinBuiltinIUsersSid => 62,
        WellKnownSidType::WinIUserSid => 63,
        WellKnownSidType::WinBuiltinCryptoOperatorsSid => 64,
        WellKnownSidType::WinUntrustedLabelSid => 65,
        WellKnownSidType::WinLowLabelSid => 66,
        WellKnownSidType::WinMediumLabelSid => 67,
        WellKnownSidType::WinHighLabelSid => 68,
        WellKnownSidType::WinSystemLabelSid => 69,
        WellKnownSidType::WinWriteRestrictedCodeSid => 70,
        WellKnownSidType::WinCreatorOwnerRightsSid => 71,
        WellKnownSidType::WinCacheablePrincipalsGroupSid => 72,
        WellKnownSidType::WinNonCacheablePrincipalsGroupSid => 73,
        WellKnownSidType::WinEnterpriseReadonlyControllersSid => 74,
        WellKnownSidType::WinAccountReadonlyControllersSid => 75,
        WellKnownSidType::WinBuiltinEventLogReadersGroup => 76,
        WellKnownSidType::WinNewEnterpriseReadonlyControllersSid => 77,
        WellKnownSidType::WinBuiltinCertSvcDComAccessGroup => 78,
        WellKnownSidType::WinMediumPlusLabelSid => 79,
        WellKnownSidType::WinLocalLogonSid => 80,
        WellKnownSidType::WinConsoleLogonSid => 81,
        WellKnownSidType::WinThisOrganizationCertificateSid => 82,
        WellKnownSidType::WinApplicationPackageAuthoritySid => 83,
        WellKnownSidType::WinBuiltinAnyPackageSid => 84,
        WellKnownSidType::WinCapabilityInternetClientSid => 85,
        WellKnownSidType::WinCapabilityInternetClientServerSid => 86,
        WellKnownSidType::WinCapabilityPrivateNetworkClientServerSid => 87,
        WellKnownSidType::WinCapabilityPicturesLibrarySid => 88,
        WellKnownSidType::WinCapabilityVideosLibrarySid => 89,
        WellKnownSidType::WinCapabilityMusicLibrarySid => 90,
        WellKnownSidType::WinCapabilityDocumentsLibrarySid => 91,
        WellKnownSidType::WinCapabilitySharedUserCertificatesSid => 92,
        WellKnownSidType::WinCapabilityEnterpriseAuthenticationSid => 93,
        WellKnownSidType::WinCapabilityRemovableStorageSid => 94,
        WellKnownSidType::WinBuiltinRDSRemoteAccessServersSid => 95,
        WellKnownSidType::WinBuiltinRDSEndpointServersSid => 96,
        WellKnownSidType::WinBuiltinRDSManagementServersSid => 97,
        WellKnownSidType::WinUserModeDriversSid => 98,
        WellKnownSidType::WinBuiltinHyperVAdminsSid => 99,
        WellKnownSidType::WinAccountCloneableControllersSid => 100,
        WellKnownSidType::WinBuiltinAccessControlAssistanceOperatorsSid => 101,
        WellKnownSidType::WinBuiltinRemoteManagementUsersSid => 102,
        WellKnownSidType::WinAuthenticationAuthorityAssertedSid => 103,
        WellKnownSidType::WinAuthenticationServiceAssertedSid => 104,
        WellKnownSidType::WinLocalAccountSid => 105,
        WellKnownSidType::WinLocalAccountAndAdministratorSid => 106,
        WellKnownSidType::WinAccountProtectedUsersSid => 107,
        WellKnownSidType::WinCapabilityAppointmentsSid => 108,
        WellKnownSidType::WinCapabilityContactsSid => 109,
        WellKnownSidType::WinAccountDefaultSystemManagedSid => 110,
        WellKnownSidType::WinBuiltinDefaultSystemManagedGroupSid => 111,
        WellKnownSidType::WinBuiltinStorageReplicaAdminsSid => 112,
        WellKnownSidType::WinAccountKeyAdminsSid => 113,
        WellKnownSidType::WinAccountEnterpriseKeyAdminsSid => 114,
        WellKnownSidType::WinAuthenticationKeyTrustSid => 115,
        WellKnownSidType::WinAuthenticationKeyPropertyMFASid => 116,
        WellKnownSidType::WinAuthenticationKeyPropertyAttestationSid => 117,
        WellKnownSidType::WinAuthenticationFreshKeyAuthSid => 118,
        WellKnownSidType::WinBuiltinDeviceOwnersSid => 119,
        WellKnownSidType::WinBuiltinUserModeHardwareOperatorsSid => 120,
        WellKnownSidType::WinBuiltinOpenSSHUsersSid => 121,
    }
}

/// Windows' `WELL_KNOWN_SID_TYPE` enumeration in its declared order: the
/// member at position `i`, whose value is `i`.
pub open spec fn well_known_at(i: int) -> Option<WellKnownSidType> {
    if 0 <= i < 122 {
        Some(
            match i as u8 {
                0 => WellKnownSidType::WinNullSid,
                1 => WellKnownSidType::WinWorldSid,
                2 => WellKnownSidType::WinLocalSid,
                3 => WellKnownSidType::WinCreatorOwnerSid,
                4 => WellKnownSidType::WinCreatorGroupSid,
                5 => WellKnownSidType::WinCreatorOwnerServerSid,
                6 => WellKnownSidType::WinCreatorGroupServerSid,
                7 => WellKnownSidType::WinNtAuthoritySid,
                8 => WellKnownSidType::WinDialupSid,
                9 => WellKnownSidType::WinNetworkSid,
                10 => WellKnownSidType::WinBatchSid,
                11 => WellKnownSidType::WinInteractiveSid,
                12 => WellKnownSidType::WinServiceSid,
                13 => WellKnownSidType::WinAnonymousSid,
                14 => WellKnownSidType::WinProxySid,
                15 => WellKnownSidType::WinEnterpriseControllersSid,
                16 => WellKnownSidType::WinSelfSid,
                17 => WellKnownSidType::WinAuthenticatedUserSid,
                18 => WellKnownSidType::WinRestrictedCodeSid,
                19 => WellKnownSidType::WinTerminalServerSid,
                20 => WellKnownSidType::WinRemoteLogonIdSid,
                21 => WellKnownSidType::WinLogonIdsSid,
                22 => WellKnownSidType::WinLocalSystemSid,
                23 => WellKnownSidType::WinLocalServiceSid,
                24 => WellKnownSidType::WinNetworkServiceSid,
                25 => WellKnownSidType::WinBuiltinDomainSid,
                26 => WellKnownSidType::WinBuiltinAdministratorsSid,
                27 => WellKnownSidType::WinBuiltinUsersSid,
                28 => WellKnownSidType::WinBuiltinGuestsSid,
                29 => WellKnownSidType::WinBuiltinPowerUsersSid,
                30 => WellKnownSidType::WinBuiltinAccountOperatorsSid,
                31 => WellKnownSidType::WinBuiltinSystemOperatorsSid,
                32 => WellKnownSidType::WinBuiltinPrintOperatorsSid,
                33 => WellKnownSidType::WinBuiltinBackupOperatorsSid,
                34 => WellKnownSidType::WinBuiltinReplicatorSid,
                35 => WellKnownSidType::WinBuiltinPreWindows2000CompatibleAccessSid,
                36 => WellKnownSidType::WinBuiltinRemoteDesktopUsersSid,
                37 => WellKnownSidType::WinBuiltinNetworkConfigurationOperatorsSid,
                38 => WellKnownSidType::WinAccountAdministratorSid,
                39 => WellKnownSidType::WinAccountGuestSid,
                40 => WellKnownSidType::WinAccountKrbtgtSid,
                41 => WellKnownSidType::WinAccountDomainAdminsSid,
                42 => WellKnownSidType::WinAccountDomainUsersSid,
                43 => WellKnownSidType::WinAccountDomainGuestsSid,
                44 => WellKnownSidType::WinAccountComputersSid,
                45 => WellKnownSidType::WinAccountControllersSid,
                46 => WellKnownSidType::WinAccountCertAdminsSid,
                47 => WellKnownSidType::WinAccountSchemaAdminsSid,
                48 => WellKnownSidType::WinAccountEnterpriseAdminsSid,
                49 => WellKnownSidType::WinAccountPolicyAdminsSid,
                50 => WellKnownSidType::WinAccountRasAndIasServersSid,
                51 => WellKnownSidType::WinNTLMAuthenticationSid,
                52 => WellKnownSidType::WinDigestAuthenticationSid,
                53 => WellKnownSidType::WinSChannelAuthenticationSid,
                54 => WellKnownSidType::WinThisOrganizationSid,
                55 => WellKnownSidType::WinOtherOrganizationSid,
                56 => WellKnownSidType::WinBuiltinIncomingForestTrustBuildersSid,
                57 => WellKnownSidType::WinBuiltinPerfMonitoringUsersSid,
                58 => WellKnownSidType::WinBuiltinPerfLoggingUsersSid,
                59 => WellKnownSidType::WinBuiltinAuthorizationAccessSid,
                60 => WellKnownSidType::WinBuiltinTerminalServerLicenseServersSid,
                61 => WellKnownSidType::WinBuiltinDCOMUsersSid,
                62 => WellKnownSidType::WinBuiltinIUsersSid,
                63 => WellKnownSidType::WinIUserSid,
                64 => WellKnownSidType::WinBuiltinCryptoOperatorsSid,
                65 => WellKnownSidType::WinUntrustedLabelSid,
                66 => WellKnownSidType::WinLowLabelSid,
                67 => WellKnownSidType::WinMediumLabelSid,
                68 => WellKnownSidType::WinHighLabelSid,
                69 => WellKnownSidType::WinSystemLabelSid,
                70 => WellKnownSidType::WinWriteRestrictedCodeSid,
                71 => WellKnownSidType::WinCreatorOwnerRightsSid,
                72 => WellKnownSidType::WinCacheablePrincipalsGroupSid,
                73 => WellKnownSidType::WinNonCacheablePrincipalsGroupSid,
                74 => WellKnownSidType::WinEnterpriseReadonlyControllersSid,
                75 => WellKnownSidType::WinAccountReadonlyControllersSid,
                76 => WellKnownSidType::WinBuiltinEventLogReadersGroup,
                77 => WellKnownSidType::WinNewEnterpriseReadonlyControllersSid,
                78 => WellKnownSidType::WinBuiltinCertSvcDComAccessGroup,
                79 => WellKnownSidType::WinMediumPlusLabelSid,
                80 => WellKnownSidType::WinLocalLogonSid,
                81 => WellKnownSidType::WinConsoleLogonSid,
                82 => WellKnownSidType::WinThisOrganizationCertificateSid,
                83 => WellKnownSidType::WinApplicationPackageAuthoritySid,
                84 => WellKnownSidType::WinBuiltinAnyPackageSid,
                85 => WellKnownSidType::WinCapabilityInternetClientSid,
                86 => WellKnownSidType::WinCapabilityInternetClientServerSid,
                87 => WellKnownSidType::WinCapabilityPrivateNetworkClientServerSid,
                88 => WellKnownSidType::WinCapabilityPicturesLibrarySid,
                89 => WellKnownSidType::WinCapabilityVideosLibrarySid,
                90 => WellKnownSidType::WinCapabilityMusicLibrarySid,
                91 => WellKnownSidType::WinCapabilityDocumentsLibrarySid,
                92 => WellKnownSidType::WinCapabilitySharedUserCertificatesSid,
                93 => WellKnownSidType::WinCapabilityEnterpriseAuthenticationSid,
                94 => WellKnownSidType::WinCapabilityRemovableStorageSid,
                95 => WellKnownSidType::WinBuiltinRDSRemoteAccessServersSid,
                96 => WellKnownSidType::WinBuiltinRDSEndpointServersSid,
                97 => WellKnownSidType::WinBuiltinRDSManagementServersSid,
                98 => WellKnownSidType::WinUserModeDriversSid,
                99 => WellKnownSidType::WinBuiltinHyperVAdminsSid,
                100 => WellKnownSidType::WinAccountCloneableControllersSid,
                101 => WellKnownSidType::WinBuiltinAccessControlAssistanceOperatorsSid,
                102 => WellKnownSidType::WinBuiltinRemoteManagementUsersSid,
                103 => WellKnownSidType::WinAuthenticationAuthorityAssertedSid,
                104 => WellKnownSidType::WinAuthenticationServiceAssertedSid,
                105 => WellKnownSidType::WinLocalAccountSid,
                106 => WellKnownSidType::WinLocalAccountAndAdministratorSid,
                107 => WellKnownSidType::WinAccountProtectedUsersSid,
                108 => WellKnownSidType::WinCapabilityAppointmentsSid,
                109 => WellKnownSidType::WinCapabilityContactsSid,
                110 => WellKnownSidType::WinAccountDefaultSystemManagedSid,
                111 => WellKnownSidType::WinBuiltinDefaultSystemManagedGroupSid,
                112 => WellKnownSidType::WinBuiltinStorageReplicaAdminsSid,
                113 => WellKnownSidType::WinAccountKeyAdminsSid,
                114 => WellKnownSidType::WinAccountEnterpriseKeyAdminsSid,
                115 => WellKnownSidType::WinAuthenticationKeyTrustSid,
                116 => WellKnownSidType::WinAuthenticationKeyPropertyMFASid,
                117 => WellKnownSidType::WinAuthenticationKeyPropertyAttestationSid,
                118 => WellKnownSidType::WinAuthenticationFreshKeyAuthSid,
                119 => WellKnownSidType::WinBuiltinDeviceOwnersSid,
                120 => WellKnownSidType::WinBuiltinUserModeHardwareOperatorsSid,
                121 => WellKnownSidType::WinBuiltinOpenSSHUsersSid,
                _ => WellKnownSidType::WinNullSid,
            },
        )
    } else {
        None
    }
}

/// Each type's Windows value is its position in Windows' enumeration, so
/// distinct types have distinct values, all from 0 to 121.
pub proof fn lemma_well_known_value_is_position(t: WellKnownSidType)
    ensures
        well_known_at(well_known_value(t) as int) == Some(t),
        0 <= well_known_value(t) < 122,
{
    match t {
        WellKnownSidType::WinNullSid => {},
        WellKnownSidType::WinWorldSid => {},
        WellKnownSidType::WinLocalSid => {},
        WellKnownSidType::WinCreatorOwnerSid => {},
        WellKnownSidType::WinCreatorGroupSid => {},
        WellKnownSidType::WinCreatorOwnerServerSid => {},
        WellKnownSidType::WinCreatorGroupServerSid => {},
        WellKnownSidType::WinNtAuthoritySid => {},
        WellKnownSidType::WinDialupSid => {},
        WellKnownSidType::WinNetworkSid => {},
        WellKnownSidType::WinBatchSid => {},
        WellKnownSidType::WinInteractiveSid => {},
        WellKnownSidType::WinServiceSid => {},
        WellKnownSidType::WinAnonymousSid => {},
        WellKnownSidType::WinProxySid => {},
        WellKnownSidType::WinEnterpriseControllersSid => {},
        WellKnownSidType::WinSelfSid => {},
        WellKnownSidType::WinAuthenticatedUserSid => {},
        WellKnownSidType::WinRestrictedCodeSid => {},
        WellKnownSidType::WinTerminalServerSid => {},
        WellKnownSidType::WinRemoteLogonIdSid => {},
        WellKnownSidType::WinLogonIdsSid => {},
        WellKnownSidType::WinLocalSystemSid => {},
        WellKnownSidType::WinLocalServiceSid => {},
        WellKnownSidType::WinNetworkServiceSid => {},
        WellKnownSidType::WinBuiltinDomainSid => {},
        WellKnownSidType::WinBuiltinAdministratorsSid => {},
        WellKnownSidType::WinBuiltinUsersSid => {},
        WellKnownSidType::WinBuiltinGuestsSid => {},
        WellKnownSidType::WinBuiltinPowerUsersSid => {},
        WellKnownSidType::WinBuiltinAccountOperatorsSid => {},
        WellKnownSidType::WinBuiltinSystemOperatorsSid => {},
        WellKnownSidType::WinBuiltinPrintOperatorsSid => {},
        WellKnownSidType::WinBuiltinBackupOperatorsSid => {},
        WellKnownSidType::WinBuiltinReplicatorSid => {},
        WellKnownSidType::WinBuiltinPreWindows2000CompatibleAccessSid => {},
        WellKnownSidType::WinBuiltinRemoteDesktopUsersSid => {},
        WellKnownSidType::WinBuiltinNetworkConfigurationOperatorsSid => {},
        WellKnownSidType::WinAccountAdministratorSid => {},
        WellKnownSidType::WinAccountGuestSid => {},
        WellKnownSidType::WinAccountKrbtgtSid => {},
        WellKnownSidType::WinAccountDomainAdminsSid => {},
        WellKnownSidType::WinAccountDomainUsersSid => {},
        WellKnownSidType::WinAccountDomainGuestsSid => {},
        WellKnownSidType::WinAccountComputersSid => {},
        WellKnownSidType::WinAccountControllersSid => {},
        WellKnownSidType::WinAccountCertAdminsSid => {},
        WellKnownSidType::WinAccountSchemaAdminsSid => {},
        WellKnownSidType::WinAccountEnterpriseAdminsSid => {},
        WellKnownSidType::WinAccountPolicyAdminsSid => {},
        WellKnownSidType::WinAccountRasAndIasServersSid => {},
        WellKnownSidType::WinNTLMAuthenticationSid => {},
        WellKnownSidType::WinDigestAuthenticationSid => {},
        WellKnownSidType::WinSChannelAuthenticationSid => {},
        WellKnownSidType::WinThisOrganizationSid => {},
        WellKnownSidType::WinOtherOrganizationSid => {},
        WellKnownSidType::WinBuiltinIncomingForestTrustBuildersSid => {},
        WellKnownSidType::WinBuiltinPerfMonitoringUsersSid => {},
        WellKnownSidType::WinBuiltinPerfLoggingUsersSid => {},
        WellKnownSidType::WinBuiltinAuthorizationAccessSid => {},
        WellKnownSidType::WinBuiltinTerminalServerLicenseServersSid => {},
        WellKnownSidType::WinBuiltinDCOMUsersSid => {},
        WellKnownSidType::WinBuiltinIUsersSid => {},
        WellKnownSidType::WinIUserSid => {},
        WellKnownSidType::WinBuiltinCryptoOperatorsSid => {},
        WellKnownSidType::WinUntrustedLabelSid => {},
        WellKnownSidType::WinLowLabelSid => {},
        WellKnownSidType::WinMediumLabelSid => {},
        WellKnownSidType::WinHighLabelSid => {},
        WellKnownSidType::WinSystemLabelSid => {},
        WellKnownSidType::WinWriteRestrictedCodeSid => {},
        WellKnownSidType::WinCreatorOwnerRightsSid => {},
        WellKnownSidType::WinCacheablePrincipalsGroupSid => {},
        WellKnownSidType::WinNonCacheablePrincipalsGroupSid => {},
        WellKnownSidType::WinEnterpriseReadonlyControllersSid => {},
        WellKnownSidType::WinAccountReadonlyControllersSid => {},
        WellKnownSidType::WinBuiltinEventLogReadersGroup => {},
        WellKnownSidType::WinNewEnterpriseReadonlyControllersSid => {},
        WellKnownSidType::WinBuiltinCertSvcDComAccessGroup => {},
        WellKnownSidType::WinMediumPlusLabelSid => {},
        WellKnownSidType::WinLocalLogonSid => {},
        WellKnownSidType::WinConsoleLogonSid => {},
        WellKnownSidType::WinThisOrganizationCertificateSid => {},
        WellKnownSidType::WinApplicationPackageAuthoritySid => {},
        WellKnownSidType::WinBuiltinAnyPackageSid => {},
        WellKnownSidType::WinCapabilityInternetClientSid => {},
        WellKnownSidType::WinCapabilityInternetClientServerSid => {},
        WellKnownSidType::WinCapabilityPrivateNetworkClientServerSid => {},
        WellKnownSidType::WinCapabilityPicturesLibrarySid => {},
        WellKnownSidType::WinCapabilityVideosLibrarySid => {},
        WellKnownSidType::WinCapabilityMusicLibrarySid => {},
        WellKnownSidType::WinCapabilityDocumentsLibrarySid => {},
        WellKnownSidType::WinCapabilitySharedUserCertificatesSid => {},
        WellKnownSidType::WinCapabilityEnterpriseAuthenticationSid => {},
        WellKnownSidType::WinCapabilityRemovableStorageSid => {},
        WellKnownSidType::WinBuiltinRDSRemoteAccessServersSid => {},
        WellKnownSidType::WinBuiltinRDSEndpointServersSid => {},
        WellKnownSidType::WinBuiltinRDSManagementServersSid => {},
        WellKnownSidType::WinUserModeDriversSid => {},
        WellKnownSidType::WinBuiltinHyperVAdminsSid => {},
        WellKnownSidType::WinAccountCloneableControllersSid => {},
        WellKnownSidType::WinBuiltinAccessControlAssistanceOperatorsSid => {},
        WellKnownSidType::WinBuiltinRemoteManagementUsersSid => {},
        WellKnownSidType::WinAuthenticationAuthorityAssertedSid => {},
        WellKnownSidType::WinAuthenticationServiceAssertedSid => {},
        WellKnownSidType::WinLocalAccountSid => {},
        WellKnownSidType::WinLocalAccountAndAdministratorSid => {},
        WellKnownSidType::WinAccountProtectedUsersSid => {},
        WellKnownSidType::WinCapabilityAppointmentsSid => {},
        WellKnownSidType::WinCapabilityContactsSid => {},
        WellKnownSidType::WinAccountDefaultSystemManagedSid => {},
        WellKnownSidType::WinBuiltinDefaultSystemManagedGroupSid => {},
        WellKnownSidType::WinBuiltinStorageReplicaAdminsSid => {},
        WellKnownSidType::WinAccountKeyAdminsSid => {},
        WellKnownSidType::WinAccountEnterpriseKeyAdminsSid => {},
        WellKnownSidType::WinAuthenticationKeyTrustSid => {},
        WellKnownSidType::WinAuthenticationKeyPropertyMFASid => {},
        WellKnownSidType::WinAuthenticationKeyPropertyAttestationSid => {},
        WellKnownSidType::WinAuthenticationFreshKeyAuthSid => {},
        WellKnownSidType::WinBuiltinDeviceOwnersSid => {},
        WellKnownSidType::WinBuiltinUserModeHardwareOperatorsSid => {},
        WellKnownSidType::WinBuiltinOpenSSHUsersSid => {},
    }
}

impl WellKnownSidType {
    /// Returns the value of Windows' `WELL_KNOWN_SID_TYPE` enumeration that
    /// this type stands for, to pass to Windows.
    pub fn win32_value(&self) -> (v: i32)
        ensures
            v == well_known_value(*self),
    {
        match self {
            WellKnownSidType::WinNullSid => 0,
            WellKnownSidType::WinWorldSid => 1,
            WellKnownSidType::WinLocalSid => 2,
            WellKnownSidType::WinCreatorOwnerSid => 3,
            WellKnownSidType::WinCreatorGroupSid => 4,
            WellKnownSidType::WinCreatorOwnerServerSid => 5,
            WellKnownSidType::WinCreatorGroupServerSid => 6,
            WellKnownSidType::WinNtAuthoritySid => 7,
            WellKnownSidType::WinDialupSid => 8,
            WellKnownSidType::WinNetworkSid => 9,
            WellKnownSidType::WinBatchSid => 10,
            WellKnownSidType::WinInteractiveSid => 11,
            WellKnownSidType::WinServiceSid => 12,
            WellKnownSidType::WinAnonymousSid => 13,
            WellKnownSidType::WinProxySid => 14,
            WellKnownSidType::WinEnterpriseControllersSid => 15,
            WellKnownSidType::WinSelfSid => 16,
            WellKnownSidType::WinAuthenticatedUserSid => 17,
            WellKnownSidType::WinRestrictedCodeSid => 18,
            WellKnownSidType::WinTerminalServerSid => 19,
            WellKnownSidType::WinRemoteLogonIdSid => 20,
            WellKnownSidType::WinLogonIdsSid => 21,
            WellKnownSidType::WinLocalSystemSid => 22,
            WellKnownSidType::WinLocalServiceSid => 23,
            WellKnownSidType::WinNetworkServiceSid => 24,
            WellKnownSidType::WinBuiltinDomainSid => 25,
            WellKnownSidType::WinBuiltinAdministratorsSid => 26,
            WellKnownSidType::WinBuiltinUsersSid => 27,
            WellKnownSidType::WinBuiltinGuestsSid => 28,
            WellKnownSidType::WinBuiltinPowerUsersSid => 29,
            WellKnownSidType::WinBuiltinAccountOperatorsSid => 30,
            WellKnownSidType::WinBuiltinSystemOperatorsSid => 31,
            WellKnownSidType::WinBuiltinPrintOperatorsSid => 32,
            WellKnownSidType::WinBuiltinBackupOperatorsSid => 33,
            WellKnownSidType::WinBuiltinReplicatorSid => 34,
            WellKnownSidType::WinBuiltinPreWindows2000CompatibleAccessSid => 35,
            WellKnownSidType::WinBuiltinRemoteDesktopUsersSid => 36,
            WellKnownSidType::WinBuiltinNetworkConfigurationOperatorsSid => 37,
            WellKnownSidType::WinAccountAdministratorSid => 38,
            WellKnownSidType::WinAccountGuestSid => 39,
            WellKnownSidType::WinAccountKrbtgtSid => 40,
            WellKnownSidType::WinAccountDomainAdminsSid => 41,
            WellKnownSidType::WinAccountDomainUsersSid => 42,
            WellKnownSidType::WinAccountDomainGuestsSid => 43,
            WellKnownSidType::WinAccountComputersSid => 44,
            WellKnownSidType::WinAccountControllersSid => 45,
            WellKnownSidType::WinAccountCertAdminsSid => 46,
            WellKnownSidType::WinAccountSchemaAdminsSid => 47,
            WellKnownSidType::WinAccountEnterpriseAdminsSid => 48,
            WellKnownSidType::WinAccountPolicyAdminsSid => 49,
            WellKnownSidType::WinAccountRasAndIasServersSid => 50,
            WellKnownSidType::WinNTLMAuthenticationSid => 51,
            WellKnownSidType::WinDigestAuthenticationSid => 52,
            WellKnownSidType::WinSChannelAuthenticationSid => 53,
            WellKnownSidType::WinThisOrganizationSid => 54,
            WellKnownSidType::WinOtherOrganizationSid => 55,
            WellKnownSidType::WinBuiltinIncomingForestTrustBuildersSid => 56,
            WellKnownSidType::WinBuiltinPerfMonitoringUsersSid => 57,
            WellKnownSidType::WinBuiltinPerfLoggingUsersSid => 58,
            WellKnownSidType::WinBuiltinAuthorizationAccessSid => 59,
            WellKnownSidType::WinBuiltinTerminalServerLicenseServersSid => 60,
            WellKnownSidType::WinBuiltinDCOMUsersSid => 61,
            WellKnownSidType::WinBuiltinIUsersSid => 62,
            WellKnownSidType::WinIUserSid => 63,
            WellKnownSidType::WinBuiltinCryptoOperatorsSid => 64,
            WellKnownSidType::WinUntrustedLabelSid => 65,
            WellKnownSidType::WinLowLabelSid => 66,
            WellKnownSidType::WinMediumLabelSid => 67,
            WellKnownSidType::WinHighLabelSid => 68,
            WellKnownSidType::WinSystemLabelSid => 69,
            WellKnownSidType::WinWriteRestrictedCodeSid => 70,
            WellKnownSidType::WinCreatorOwnerRightsSid => 71,
            WellKnownSidType::WinCacheablePrincipalsGroupSid => 72,
            WellKnownSidType::WinNonCacheablePrincipalsGroupSid => 73,
            WellKnownSidType::WinEnterpriseReadonlyControllersSid => 74,
            WellKnownSidType::WinAccountReadonlyControllersSid => 75,
            WellKnownSidType::WinBuiltinEventLogReadersGroup => 76,
            WellKnownSidType::WinNewEnterpriseReadonlyControllersSid => 77,
            WellKnownSidType::WinBuiltinCertSvcDComAccessGroup => 78,
            WellKnownSidType::WinMediumPlusLabelSid => 79,
            WellKnownSidType::WinLocalLogonSid => 80,
            WellKnownSidType::WinConsoleLogonSid => 81,
            WellKnownSidType::WinThisOrganizationCertificateSid => 82,
            WellKnownSidType::WinApplicationPackageAuthoritySid => 83,
            WellKnownSidType::WinBuiltinAnyPackageSid => 84,
            WellKnownSidType::WinCapabilityInternetClientSid => 85,
            WellKnownSidType::WinCapabilityInternetClientServerSid => 86,
            WellKnownSidType::WinCapabilityPrivateNetworkClientServerSid => 87,
            WellKnownSidType::WinCapabilityPicturesLibrarySid => 88,
            WellKnownSidType::WinCapabilityVideosLibrarySid => 89,
            WellKnownSidType::WinCapabilityMusicLibrarySid => 90,
            WellKnownSidType::WinCapabilityDocumentsLibrarySid => 91,
            WellKnownSidType::WinCapabilitySharedUserCertificatesSid => 92,
            WellKnownSidType::WinCapabilityEnterpriseAuthenticationSid => 93,
            WellKnownSidType::WinCapabilityRemovableStorageSid => 94,
            WellKnownSidType::WinBuiltinRDSRemoteAccessServersSid => 95,
            WellKnownSidType::WinBuiltinRDSEndpointServersSid => 96,
            WellKnownSidType::WinBuiltinRDSManagementServersSid => 97,
            WellKnownSidType::WinUserModeDriversSid => 98,
            WellKnownSidType::WinBuiltinHyperVAdminsSid => 99,
            WellKnownSidType::WinAccountCloneableControllersSid => 100,
            WellKnownSidType::WinBuiltinAccessControlAssistanceOperatorsSid => 101,
            WellKnownSidType::WinBuiltinRemoteManagementUsersSid => 102,
            WellKnownSidType::WinAuthenticationAuthorityAssertedSid => 103,
            WellKnownSidType::WinAuthenticationServiceAssertedSid => 104,
            WellKnownSidType::WinLocalAccountSid => 105,
            WellKnownSidType::WinLocalAccountAndAdministratorSid => 106,
            WellKnownSidType::WinAccountProtectedUsersSid => 107,
            WellKnownSidType::WinCapabilityAppointmentsSid => 108,
            WellKnownSidType::WinCapabilityContactsSid => 109,
            WellKnownSidType::WinAccountDefaultSystemManagedSid => 110,
            WellKnownSidType::WinBuiltinDefaultSystemManagedGroupSid => 111,
            WellKnownSidType::WinBuiltinStorageReplicaAdminsSid => 112,
            WellKnownSidType::WinAccountKeyAdminsSid => 113,
            WellKnownSidType::WinAccountEnterpriseKeyAdminsSid => 114,
            WellKnownSidType::WinAuthenticationKeyTrustSid => 115,
            WellKnownSidType::WinAuthenticationKeyPropertyMFASid => 116,
            WellKnownSidType::WinAuthenticationKeyPropertyAttestationSid => 117,
            WellKnownSidType::WinAuthenticationFreshKeyAuthSid => 118,
            WellKnownSidType::WinBuiltinDeviceOwnersSid => 119,
            WellKnownSidType::WinBuiltinUserModeHardwareOperatorsSid => 120,
            WellKnownSidType::WinBuiltinOpenSSHUsersSid => 121,
        }
    }
}

/// Converts a well-known SID type to the value expected by Windows.
pub trait AsWellKnownSidType {
    /// Returns the wrapped well-known SID type.
    fn as_well_known_sid_type(&self) -> WellKnownSidType;
}

impl AsWellKnownSidType for WellKnownSidType {
    fn as_well_known_sid_type(&self) -> (t: WellKnownSidType)
        ensures
            t == *self,
    {
        *self
    }
}

} // verus!
