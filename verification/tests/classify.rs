use shreds_client::{
    BoopInstructionType, ComputeBudgetInstructionType, PumpAmmInstructionType, PumpInstructionType,
    PumpParser,
};

fn with_tail(tag: [u8; 8]) -> Vec<u8> {
    let mut payload = tag.to_vec();
    payload.extend_from_slice(&[1, 2, 3]);
    payload
}

#[test]
fn pump_discriminators_select_their_variants() {
    let table: [([u8; 8], PumpInstructionType); 15] = [
        ([102, 6, 61, 18, 1, 218, 235, 234], PumpInstructionType::Buy),
        ([242, 35, 198, 137, 82, 225, 242, 182], PumpInstructionType::Buy),
        ([24, 30, 200, 40, 5, 28, 7, 119], PumpInstructionType::Create),
        ([54, 49, 138, 255, 162, 99, 87, 199], PumpInstructionType::Create),
        ([234, 102, 194, 203, 150, 72, 62, 229], PumpInstructionType::ExtendAccount),
        ([175, 175, 109, 31, 13, 152, 155, 237], PumpInstructionType::Initialize),
        ([103, 232, 80, 22, 46, 244, 138, 11], PumpInstructionType::Initialize),
        ([155, 234, 231, 146, 236, 158, 162, 30], PumpInstructionType::Migrate),
        ([51, 230, 133, 164, 1, 127, 131, 173], PumpInstructionType::Sell),
        ([157, 141, 99, 91, 56, 32, 241, 199], PumpInstructionType::Sell),
        ([27, 234, 178, 52, 147, 2, 187, 141], PumpInstructionType::SetParams),
        ([186, 127, 135, 21, 36, 67, 77, 55], PumpInstructionType::SetParams),
        ([227, 181, 74, 196, 208, 21, 97, 213], PumpInstructionType::UpdateGlobalAuthority),
        ([183, 18, 70, 156, 148, 109, 161, 34], PumpInstructionType::Withdraw),
        ([16, 9, 233, 100, 246, 18, 249, 253], PumpInstructionType::Withdraw),
    ];
    for (tag, variant) in table {
        assert_eq!(PumpInstructionType::classify(&tag), variant);
        assert_eq!(PumpInstructionType::classify(&with_tail(tag)), variant);
    }
}

#[test]
fn pumpamm_discriminators_select_their_variants() {
    let table: [([u8; 8], PumpAmmInstructionType); 10] = [
        ([102, 6, 61, 18, 1, 218, 235, 234], PumpAmmInstructionType::Buy),
        ([201, 207, 243, 114, 75, 111, 47, 189], PumpAmmInstructionType::CreateConfig),
        ([233, 146, 209, 142, 207, 104, 64, 188], PumpAmmInstructionType::CreatePool),
        ([242, 35, 198, 137, 82, 225, 242, 182], PumpAmmInstructionType::Deposit),
        ([185, 173, 187, 90, 216, 15, 238, 233], PumpAmmInstructionType::Disable),
        ([234, 102, 194, 203, 150, 72, 62, 229], PumpAmmInstructionType::ExtendAccount),
        ([51, 230, 133, 164, 1, 127, 131, 173], PumpAmmInstructionType::Sell),
        ([161, 176, 40, 213, 60, 184, 179, 228], PumpAmmInstructionType::UpdateAdmin),
        ([104, 184, 103, 242, 88, 151, 107, 20], PumpAmmInstructionType::UpdateFeeConfig),
        ([183, 18, 70, 156, 148, 109, 161, 34], PumpAmmInstructionType::Withdraw),
    ];
    for (tag, variant) in table {
        assert_eq!(PumpAmmInstructionType::classify(&tag), variant);
        assert_eq!(PumpAmmInstructionType::classify(&with_tail(tag)), variant);
    }
}

#[test]
fn boop_discriminators_select_their_variants() {
    let table: [([u8; 8], BoopInstructionType); 11] = [
        ([138, 127, 14, 91, 38, 87, 115, 105], BoopInstructionType::BuyToken),
        ([109, 61, 40, 187, 230, 176, 135, 174], BoopInstructionType::SellToken),
        ([253, 184, 126, 199, 235, 232, 172, 162], BoopInstructionType::CreateToken),
        ([53, 230, 172, 84, 77, 174, 22, 61], BoopInstructionType::DeployBondingCurve),
        ([84, 52, 204, 228, 24, 140, 234, 75], BoopInstructionType::CreateToken),
        ([180, 89, 199, 76, 168, 236, 217, 138], BoopInstructionType::DeployBondingCurve),
        ([191, 19, 103, 26, 245, 85, 112, 105], BoopInstructionType::Create),
        ([25, 169, 76, 76, 84, 153, 195, 216], BoopInstructionType::Sell),
        ([175, 175, 109, 31, 13, 152, 155, 237], BoopInstructionType::Initialize),
        ([235, 129, 153, 118, 219, 194, 131, 246], BoopInstructionType::SetParams),
        ([167, 17, 172, 137, 241, 116, 201, 161], BoopInstructionType::UpdateAuthority),
    ];
    for (tag, variant) in table {
        assert_eq!(BoopInstructionType::classify(&tag), variant);
        assert_eq!(BoopInstructionType::classify(&with_tail(tag)), variant);
    }
}

#[test]
fn the_same_discriminator_means_different_things_to_different_programs() {
    let tag = [242u8, 35, 198, 137, 82, 225, 242, 182];
    assert_eq!(PumpInstructionType::classify(&tag), PumpInstructionType::Buy);
    assert_eq!(PumpAmmInstructionType::classify(&tag), PumpAmmInstructionType::Deposit);
    assert_eq!(BoopInstructionType::classify(&tag), BoopInstructionType::Unknown);
}

#[test]
fn short_payloads_are_unknown() {
    let tag = [102u8, 6, 61, 18, 1, 218, 235, 234];
    for k in 0..8 {
        assert_eq!(PumpInstructionType::classify(&tag[..k]), PumpInstructionType::Unknown);
        assert_eq!(PumpAmmInstructionType::classify(&tag[..k]), PumpAmmInstructionType::Unknown);
        assert_eq!(BoopInstructionType::classify(&tag[..k]), BoopInstructionType::Unknown);
    }
}

#[test]
fn unlisted_discriminators_are_unknown() {
    let tag = [0u8, 1, 2, 3, 4, 5, 6, 7];
    assert_eq!(PumpInstructionType::classify(&tag), PumpInstructionType::Unknown);
    assert_eq!(PumpAmmInstructionType::classify(&tag), PumpAmmInstructionType::Unknown);
    assert_eq!(BoopInstructionType::classify(&tag), BoopInstructionType::Unknown);
    let near = [102u8, 6, 61, 18, 1, 218, 235, 235];
    assert_eq!(PumpInstructionType::classify(&near), PumpInstructionType::Unknown);
}

#[test]
fn classifying_twice_gives_the_same_variant() {
    let payloads: [&[u8]; 5] = [
        &[],
        &[102, 6, 61],
        &[102, 6, 61, 18, 1, 218, 235, 234],
        &[102, 6, 61, 18, 1, 218, 235, 234, 9, 9],
        &[9, 9, 9, 9, 9, 9, 9, 9, 9],
    ];
    for p in payloads {
        assert_eq!(PumpInstructionType::classify(p), PumpInstructionType::classify(p));
        assert_eq!(PumpAmmInstructionType::classify(p), PumpAmmInstructionType::classify(p));
        assert_eq!(BoopInstructionType::classify(p), BoopInstructionType::classify(p));
        assert_eq!(
            ComputeBudgetInstructionType::classify(p),
            ComputeBudgetInstructionType::classify(p)
        );
    }
}

#[test]
fn variant_names_are_the_variants_identifiers() {
    assert_eq!(PumpInstructionType::Buy.name(), "Buy");
    assert_eq!(PumpInstructionType::UpdateGlobalAuthority.name(), "UpdateGlobalAuthority");
    assert_eq!(PumpInstructionType::Unknown.name(), "Unknown");
    assert_eq!(PumpAmmInstructionType::UpdateFeeConfig.name(), "UpdateFeeConfig");
    assert_eq!(BoopInstructionType::DeployBondingCurve.name(), "DeployBondingCurve");
    assert_eq!(
        format!("{:?}", PumpAmmInstructionType::CreatePool),
        PumpAmmInstructionType::CreatePool.name()
    );
}

#[test]
fn compute_budget_opcodes_select_their_variants() {
    assert_eq!(
        ComputeBudgetInstructionType::classify(&[0, 1, 2, 3, 4]),
        ComputeBudgetInstructionType::RequestHeapFrame
    );
    assert_eq!(
        ComputeBudgetInstructionType::classify(&[1]),
        ComputeBudgetInstructionType::RequestComputeUnits
    );
    assert_eq!(
        ComputeBudgetInstructionType::classify(&[2, 0]),
        ComputeBudgetInstructionType::SetComputeUnitLimit
    );
    assert_eq!(
        ComputeBudgetInstructionType::classify(&[3]),
        ComputeBudgetInstructionType::SetComputeUnitPrice
    );
    assert_eq!(ComputeBudgetInstructionType::classify(&[4]), ComputeBudgetInstructionType::Unknown);
    assert_eq!(
        ComputeBudgetInstructionType::classify(&[255]),
        ComputeBudgetInstructionType::Unknown
    );
    assert_eq!(ComputeBudgetInstructionType::classify(&[]), ComputeBudgetInstructionType::Unknown);
}

#[test]
fn compute_budget_instruction_keeps_its_payload() {
    let parsed = PumpParser::parse_compute_budget_instruction(&[2, 0x40, 0x0d, 0x03, 0x00]);
    assert_eq!(parsed.instruction_type, ComputeBudgetInstructionType::SetComputeUnitLimit);
    assert_eq!(parsed.data, vec![2, 0x40, 0x0d, 0x03, 0x00]);
    let empty = PumpParser::parse_compute_budget_instruction(&[]);
    assert_eq!(empty.instruction_type, ComputeBudgetInstructionType::Unknown);
    assert!(empty.data.is_empty());
}
