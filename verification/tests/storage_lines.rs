use pallet_upgrade::storage::{render_storages, Inference, QueryKind, StorageLine, StorageShape};
use pallet_upgrade::visibility::{convert_vis, Visibility};

// The block of a public, required `Count: u32`: the annotation and the declaration, nothing else.
#[test]
fn count_is_declared_as_a_required_value() {
    let line = StorageLine {
        visibility: Visibility::Public,
        name: String::from("Count"),
        getter: None,
        default_value: None,
        storage_type: StorageShape::Simple { value: String::from("u32") },
        is_option: false,
    };
    assert_eq!(
        line.render("<T>"),
        "\n\n\t#[pallet::storage]\n\tpub type Count<T> = StorageValue<_, u32, ValueQuery>;"
    );
}

// Not optional, with a default: `ValueQuery`, then the provider as the last argument; no comment.
#[test]
fn required_line_with_default_stays_required() {
    let line = StorageLine {
        visibility: Visibility::Public,
        name: String::from("Flag"),
        getter: None,
        default_value: Some(String::from("true")),
        storage_type: StorageShape::Simple { value: String::from("bool") },
        is_option: false,
    };
    assert_eq!(
        line.render("<T>"),
        "\n\n\t#[type_value] fn DefaultForFlag /* TODO_MAYBE_GENERICS */ () -> bool {\n\t\ttrue\n\t}\n\t#[pallet::storage]\n\tpub type Flag<T> = StorageValue<_, bool, ValueQuery, DefaultForFlag>;"
    );
}

// Optional, no default: `OptionQuery`; no provider, no comment.
#[test]
fn optional_line_without_default_is_optional() {
    let line = StorageLine {
        visibility: Visibility::Public,
        name: String::from("Limit"),
        getter: None,
        default_value: None,
        storage_type: StorageShape::Simple { value: String::from("u8") },
        is_option: true,
    };
    assert_eq!(
        line.render("<T>"),
        "\n\n\t#[pallet::storage]\n\tpub type Limit<T> = StorageValue<_, u8, OptionQuery>;"
    );
}

// Optional with a default: `ValueQuery`, the provider kept, the comment right after the semicolon.
#[test]
fn optional_line_with_default_is_required_and_flagged() {
    let line = StorageLine {
        visibility: Visibility::Public,
        name: String::from("Quota"),
        getter: None,
        default_value: Some(String::from("Some (5)")),
        storage_type: StorageShape::Simple { value: String::from("u16") },
        is_option: true,
    };
    assert_eq!(
        line.render("<T>"),
        "\n\n\t#[type_value] fn DefaultForQuota /* TODO_MAYBE_GENERICS */ () -> u16 {\n\t\tSome (5)\n\t}\n\t#[pallet::storage]\n\tpub type Quota<T> = StorageValue<_, u16, ValueQuery, DefaultForQuota>; // TODO: This type of storage is no longer supported: `OptionQuery` cannot be used alongside a not-none value on empty storage. Please use `ValueQuery` instead."
    );
}

// A getter: its annotation stands between the storage annotation and the declaration.
#[test]
fn getter_is_named_above_the_declaration() {
    let line = StorageLine {
        visibility: Visibility::Inherited,
        name: String::from("Owner"),
        getter: Some(String::from("owner")),
        default_value: None,
        storage_type: StorageShape::Simple { value: String::from("T :: AccountId") },
        is_option: true,
    };
    assert_eq!(
        line.render("<T>"),
        "\n\n\t#[pallet::storage]\n\t#[getter(fn owner)]\n\tpub(super) type Owner<T> = StorageValue<_, T :: AccountId, OptionQuery>;"
    );
}

// A map: hasher, key and value, then the trailing arguments.
#[test]
fn map_names_hasher_key_and_value() {
    let line = StorageLine {
        visibility: Visibility::Public,
        name: String::from("Balances"),
        getter: Some(String::from("balance_of")),
        default_value: Some(String::from("T :: Balance :: from (7u32)")),
        storage_type: StorageShape::SingleMap { hasher: String::from("Blake2_128Concat"), key: String::from("T :: AccountId"), value: String::from("T :: Balance") },
        is_option: false,
    };
    assert_eq!(
        line.render("<T, I>"),
        "\n\n\t#[type_value] fn DefaultForBalances /* TODO_MAYBE_GENERICS */ () -> T :: Balance {\n\t\tT :: Balance :: from (7u32)\n\t}\n\t#[pallet::storage]\n\t#[getter(fn balance_of)]\n\tpub type Balances<T, I> = StorageMap<_, Blake2_128Concat, T :: AccountId, T :: Balance, ValueQuery, DefaultForBalances>;"
    );
}

// A double map: two pairs of hasher and key, then the value and the trailing arguments.
#[test]
fn double_map_names_both_hashers_and_keys() {
    let line = StorageLine {
        visibility: Visibility::Restricted,
        name: String::from("Allowances"),
        getter: None,
        default_value: Some(String::from("Some (3)")),
        storage_type: StorageShape::DoubleMap { hasher1: String::from("Twox64Concat"), key1: String::from("T :: AccountId"), hasher2: String::from("Identity"), key2: String::from("u32"), value: String::from("u64") },
        is_option: true,
    };
    assert_eq!(
        line.render("<T>"),
        "\n\n\t#[type_value] fn DefaultForAllowances /* TODO_MAYBE_GENERICS */ () -> u64 {\n\t\tSome (3)\n\t}\n\t#[pallet::storage]\n\t/* TODO_VISIBILITY */ type Allowances<T> = StorageDoubleMap<_, Twox64Concat, T :: AccountId, Identity, u32, u64, ValueQuery, DefaultForAllowances>; // TODO: This type of storage is no longer supported: `OptionQuery` cannot be used alongside a not-none value on empty storage. Please use `ValueQuery` instead."
    );
}

// With an empty generic list the name is followed by ` = ` at once.
#[test]
fn simple_line_ignores_the_generic_list_it_is_not_given() {
    let line = StorageLine {
        visibility: Visibility::Public,
        name: String::from("Count"),
        getter: None,
        default_value: None,
        storage_type: StorageShape::Simple { value: String::from("u32") },
        is_option: false,
    };
    assert_eq!(
        line.render(""),
        "\n\n\t#[pallet::storage]\n\tpub type Count = StorageValue<_, u32, ValueQuery>;"
    );
}

// Three lines give three blocks, in the order given.
#[test]
fn blocks_come_in_the_order_of_the_lines() {
    let lines: Vec<StorageLine> = vec![
        StorageLine {
            visibility: Visibility::Public,
            name: String::from("Count"),
            getter: None,
            default_value: None,
            storage_type: StorageShape::Simple { value: String::from("u32") },
            is_option: false,
        },
        StorageLine {
            visibility: Visibility::Public,
            name: String::from("Limit"),
            getter: None,
            default_value: None,
            storage_type: StorageShape::Simple { value: String::from("u8") },
            is_option: true,
        },
        StorageLine {
            visibility: Visibility::Public,
            name: String::from("Flag"),
            getter: None,
            default_value: Some(String::from("true")),
            storage_type: StorageShape::Simple { value: String::from("bool") },
            is_option: false,
        },
    ];
    assert_eq!(
        render_storages(&lines, "<T>"),
        "\n\n\t#[pallet::storage]\n\tpub type Count<T> = StorageValue<_, u32, ValueQuery>;\n\n\t#[pallet::storage]\n\tpub type Limit<T> = StorageValue<_, u8, OptionQuery>;\n\n\t#[type_value] fn DefaultForFlag /* TODO_MAYBE_GENERICS */ () -> bool {\n\t\ttrue\n\t}\n\t#[pallet::storage]\n\tpub type Flag<T> = StorageValue<_, bool, ValueQuery, DefaultForFlag>;"
    );
}

// The same three lines in another order give the blocks in that order.
#[test]
fn blocks_follow_a_changed_order() {
    let lines: Vec<StorageLine> = vec![
        StorageLine {
            visibility: Visibility::Public,
            name: String::from("Flag"),
            getter: None,
            default_value: Some(String::from("true")),
            storage_type: StorageShape::Simple { value: String::from("bool") },
            is_option: false,
        },
        StorageLine {
            visibility: Visibility::Public,
            name: String::from("Count"),
            getter: None,
            default_value: None,
            storage_type: StorageShape::Simple { value: String::from("u32") },
            is_option: false,
        },
        StorageLine {
            visibility: Visibility::Public,
            name: String::from("Limit"),
            getter: None,
            default_value: None,
            storage_type: StorageShape::Simple { value: String::from("u8") },
            is_option: true,
        },
    ];
    assert_eq!(
        render_storages(&lines, "<T>"),
        "\n\n\t#[type_value] fn DefaultForFlag /* TODO_MAYBE_GENERICS */ () -> bool {\n\t\ttrue\n\t}\n\t#[pallet::storage]\n\tpub type Flag<T> = StorageValue<_, bool, ValueQuery, DefaultForFlag>;\n\n\t#[pallet::storage]\n\tpub type Count<T> = StorageValue<_, u32, ValueQuery>;\n\n\t#[pallet::storage]\n\tpub type Limit<T> = StorageValue<_, u8, OptionQuery>;"
    );
}

// A line given twice is rendered twice.
#[test]
fn equal_lines_are_all_rendered() {
    let lines: Vec<StorageLine> = vec![
        StorageLine {
            visibility: Visibility::Public,
            name: String::from("Count"),
            getter: None,
            default_value: None,
            storage_type: StorageShape::Simple { value: String::from("u32") },
            is_option: false,
        },
        StorageLine {
            visibility: Visibility::Public,
            name: String::from("Count"),
            getter: None,
            default_value: None,
            storage_type: StorageShape::Simple { value: String::from("u32") },
            is_option: false,
        },
    ];
    assert_eq!(
        render_storages(&lines, "<T>"),
        "\n\n\t#[pallet::storage]\n\tpub type Count<T> = StorageValue<_, u32, ValueQuery>;\n\n\t#[pallet::storage]\n\tpub type Count<T> = StorageValue<_, u32, ValueQuery>;"
    );
}

// No lines, no text.
#[test]
fn no_lines_give_an_empty_section() {
    let lines: Vec<StorageLine> = Vec::new();
    assert_eq!(
        render_storages(&lines, "<T>"),
        ""
    );
}

// The block of each line is a whole part of the section, at the place of the line.
#[test]
fn section_is_the_blocks_joined() {
    let lines: Vec<StorageLine> = vec![
        StorageLine {
            visibility: Visibility::Inherited,
            name: String::from("Owner"),
            getter: Some(String::from("owner")),
            default_value: None,
            storage_type: StorageShape::Simple { value: String::from("T :: AccountId") },
            is_option: true,
        },
        StorageLine {
            visibility: Visibility::Public,
            name: String::from("Balances"),
            getter: Some(String::from("balance_of")),
            default_value: Some(String::from("T :: Balance :: from (7u32)")),
            storage_type: StorageShape::SingleMap { hasher: String::from("Blake2_128Concat"), key: String::from("T :: AccountId"), value: String::from("T :: Balance") },
            is_option: false,
        },
        StorageLine {
            visibility: Visibility::Restricted,
            name: String::from("Allowances"),
            getter: None,
            default_value: Some(String::from("Some (3)")),
            storage_type: StorageShape::DoubleMap { hasher1: String::from("Twox64Concat"), key1: String::from("T :: AccountId"), hasher2: String::from("Identity"), key2: String::from("u32"), value: String::from("u64") },
            is_option: true,
        },
        StorageLine {
            visibility: Visibility::Public,
            name: String::from("Count"),
            getter: None,
            default_value: None,
            storage_type: StorageShape::Simple { value: String::from("u32") },
            is_option: false,
        },
    ];
    let mut joined = String::new();
    for line in &lines {
        joined.push_str(&line.render("<T, I>"));
    }
    assert_eq!(render_storages(&lines, "<T, I>"), joined);
}

#[test]
fn query_kind_is_inferred_from_optionality_and_default() {
    let mut line = StorageLine {
        visibility: Visibility::Public,
        name: String::from("Count"),
        getter: None,
        default_value: None,
        storage_type: StorageShape::Simple { value: String::from("u32") },
        is_option: false,
    };
    line.is_option = false;
    line.default_value = None;
    assert_eq!(line.query_kind(), QueryKind::ValueQuery);
    assert!(!line.is_unsupported());
    line.default_value = Some(String::from("1"));
    assert_eq!(line.query_kind(), QueryKind::ValueQuery);
    assert!(!line.is_unsupported());
    line.is_option = true;
    assert_eq!(line.query_kind(), QueryKind::ValueQuery);
    assert!(line.is_unsupported());
    line.default_value = None;
    assert_eq!(line.query_kind(), QueryKind::OptionQuery);
    assert!(!line.is_unsupported());
}

#[test]
fn unsupported_line_is_flagged_and_still_declared() {
    let mut line = StorageLine {
        visibility: Visibility::Public,
        name: String::from("Count"),
        getter: None,
        default_value: None,
        storage_type: StorageShape::Simple { value: String::from("u32") },
        is_option: false,
    };
    line.is_option = true;
    line.default_value = Some(String::from("1"));
    match line.infer_query_kind() {
        Inference::Unsupported { kind, warning } => {
            assert_eq!(kind, QueryKind::ValueQuery);
            assert_eq!(
                warning,
                " // TODO: This type of storage is no longer supported: `OptionQuery` cannot be used alongside a not-none value on empty storage. Please use `ValueQuery` instead."
            );
            assert!(line.render("<T>").ends_with(&format!("ValueQuery, DefaultForCount>;{}", warning)));
        },
        Inference::Supported(_) => panic!("the line is not flagged"),
    }
    line.default_value = None;
    assert_eq!(line.infer_query_kind(), Inference::Supported(QueryKind::OptionQuery));
    line.is_option = false;
    assert_eq!(line.infer_query_kind(), Inference::Supported(QueryKind::ValueQuery));
    line.default_value = Some(String::from("1"));
    assert_eq!(line.infer_query_kind(), Inference::Supported(QueryKind::ValueQuery));
}

#[test]
fn provider_is_named_after_the_line() {
    let line = StorageLine {
        visibility: Visibility::Public,
        name: String::from("Flag"),
        getter: None,
        default_value: Some(String::from("true")),
        storage_type: StorageShape::Simple { value: String::from("bool") },
        is_option: false,
    };
    assert_eq!(line.provider_name(), "DefaultForFlag");
    assert_eq!(
        line.render_provider(),
        "\n\t#[type_value] fn DefaultForFlag /* TODO_MAYBE_GENERICS */ () -> bool {\n\t\ttrue\n\t}"
    );
    assert_eq!(line.render_storage_type(), "StorageValue<_, bool, ValueQuery, DefaultForFlag>");
}

#[test]
fn line_without_default_has_no_provider() {
    let line = StorageLine {
        visibility: Visibility::Public,
        name: String::from("Count"),
        getter: None,
        default_value: None,
        storage_type: StorageShape::Simple { value: String::from("u32") },
        is_option: false,
    };
    assert_eq!(line.render_provider(), "");
    assert_eq!(line.render_storage_type(), "StorageValue<_, u32, ValueQuery>");
    assert_eq!(line.render_getter(), "");
}

#[test]
fn default_expression_is_kept_as_given() {
    let line = StorageLine {
        visibility: Visibility::Restricted,
        name: String::from("Allowances"),
        getter: None,
        default_value: Some(String::from("Some (3)")),
        storage_type: StorageShape::DoubleMap { hasher1: String::from("Twox64Concat"), key1: String::from("T :: AccountId"), hasher2: String::from("Identity"), key2: String::from("u32"), value: String::from("u64") },
        is_option: true,
    };
    let block = line.render("<T>");
    assert!(block.contains("\n\t\tSome (3)\n\t}"));
    assert!(block.ends_with(
        "DefaultForAllowances>; // TODO: This type of storage is no longer supported: `OptionQuery` cannot be used alongside a not-none value on empty storage. Please use `ValueQuery` instead."
    ));
}

#[test]
fn visibility_becomes_a_keyword_or_a_marker() {
    assert_eq!(convert_vis(&Visibility::Inherited), "pub(super)");
    assert_eq!(convert_vis(&Visibility::Public), "pub");
    assert_eq!(convert_vis(&Visibility::Restricted), "/* TODO_VISIBILITY */");
}

#[test]
fn value_type_is_the_one_of_the_shape() {
    let lines: Vec<StorageLine> = vec![
        StorageLine {
            visibility: Visibility::Inherited,
            name: String::from("Owner"),
            getter: Some(String::from("owner")),
            default_value: None,
            storage_type: StorageShape::Simple { value: String::from("T :: AccountId") },
            is_option: true,
        },
        StorageLine {
            visibility: Visibility::Public,
            name: String::from("Balances"),
            getter: Some(String::from("balance_of")),
            default_value: Some(String::from("T :: Balance :: from (7u32)")),
            storage_type: StorageShape::SingleMap { hasher: String::from("Blake2_128Concat"), key: String::from("T :: AccountId"), value: String::from("T :: Balance") },
            is_option: false,
        },
        StorageLine {
            visibility: Visibility::Restricted,
            name: String::from("Allowances"),
            getter: None,
            default_value: Some(String::from("Some (3)")),
            storage_type: StorageShape::DoubleMap { hasher1: String::from("Twox64Concat"), key1: String::from("T :: AccountId"), hasher2: String::from("Identity"), key2: String::from("u32"), value: String::from("u64") },
            is_option: true,
        },
    ];
    assert_eq!(lines[0].value_type(), "T :: AccountId");
    assert_eq!(lines[1].value_type(), "T :: Balance");
    assert_eq!(lines[2].value_type(), "u64");
    assert_eq!(lines[1].storage_type.value_type(), "T :: Balance");
    assert_eq!(lines[0].storage_type.render_args(), "StorageValue<_, T :: AccountId");
    assert_eq!(
        lines[1].storage_type.render_args(),
        "StorageMap<_, Blake2_128Concat, T :: AccountId, T :: Balance"
    );
    assert_eq!(
        lines[2].storage_type.render_args(),
        "StorageDoubleMap<_, Twox64Concat, T :: AccountId, Identity, u32, u64"
    );
}
