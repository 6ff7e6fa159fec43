use rmcp::handler::server::tool::{lookup_parameter, IntoCallToolResult};
use rmcp::tool_macro::{
    call_fn_name, parse_item_attrs, plan_params, request_type_name, tool_attr_fn_name, FnParam,
    ParamAttr, ParamMarker, ToolMacroError, ToolParams,
};

fn keys(ks: &[&str]) -> Vec<String> {
    ks.iter().map(|k| k.to_string()).collect()
}

fn receiver() -> FnParam {
    FnParam { is_receiver: true, has_ident: false, attrs: vec![] }
}

fn param(attrs: Vec<ParamAttr>) -> FnParam {
    FnParam { is_receiver: false, has_ident: true, attrs }
}

#[test]
fn test_tool_sync_macro() {
    // #[tool(name = "test_tool", description = "test tool")]
    // fn echo(&self, #[tool(param)] echo: String) -> ...
    let attrs = parse_item_attrs(&keys(&["name", "description"])).unwrap();
    assert_eq!(attrs.name, Some(0));
    assert_eq!(attrs.description, Some(1));
    let marker = ParamMarker::from_ident("param");
    let plan = plan_params(&vec![receiver(), param(vec![ParamAttr::Tool(marker)])]).unwrap();
    match plan.params {
        ToolParams::Params(ps) => assert_eq!(ps, vec![1]),
        _ => panic!("expected one field"),
    }
    assert_eq!(plan.kept_params, vec![0]);
    assert_eq!(tool_attr_fn_name("echo"), "echo_tool_attr");
    assert_eq!(call_fn_name("echo"), "echo_call");
    assert_eq!(request_type_name("echo"), "__ECHOToolCallParam");
}

#[test]
fn test_tool_macros() {
    // #[tool(name = "get-weather", description = "Get the weather of a city.")]
    // pub async fn get_weather(#[tool(param)] city: String) -> String
    let attrs = parse_item_attrs(&keys(&["name", "description"])).unwrap();
    assert_eq!(attrs.name, Some(0));
    let plan = plan_params(&vec![param(vec![ParamAttr::Tool(ParamMarker::from_ident("param"))])])
        .unwrap();
    match plan.params {
        ToolParams::Params(ps) => assert_eq!(ps, vec![0]),
        _ => panic!("expected one field"),
    }
    assert!(plan.kept_params.is_empty());
    assert_eq!(tool_attr_fn_name("get_weather"), "get_weather_tool_attr");
    assert_eq!(call_fn_name("get_weather"), "get_weather_call");
    assert_eq!(request_type_name("get_weather"), "__GET_WEATHERToolCallParam");
    let mut request = serde_json::Map::new();
    request.insert("city".to_string(), serde_json::Value::String("Harbin".to_string()));
    let city = lookup_parameter(&Some(request), "city").unwrap();
    assert_eq!(city, serde_json::Value::String("Harbin".to_string()));
    let result = "rain".to_string().into_call_tool_result().unwrap();
    let weather = &result.content[0].raw.as_text().as_ref().unwrap().text;
    assert_eq!(weather, "rain");
}

#[test]
fn markers() {
    assert_eq!(ParamMarker::from_ident("param"), Some(ParamMarker::Param));
    assert_eq!(ParamMarker::from_ident("aggr"), Some(ParamMarker::Aggregated));
    assert_eq!(ParamMarker::from_ident("req"), Some(ParamMarker::Aggregated));
    assert_eq!(ParamMarker::from_ident("params"), None);
    assert_eq!(ParamMarker::from_ident(""), None);
}

#[test]
fn item_attrs_last_wins_and_unknown_fails() {
    let a = parse_item_attrs(&keys(&["name", "name", "description"])).unwrap();
    assert_eq!(a.name, Some(1));
    assert_eq!(a.description, Some(2));
    let a = parse_item_attrs(&keys(&[])).unwrap();
    assert_eq!(a.name, None);
    assert_eq!(a.description, None);
    assert_eq!(
        parse_item_attrs(&keys(&["name", "title", "other"])),
        Err(ToolMacroError::UnknownAttribute(1))
    );
}

#[test]
fn aggregated_parameter_takes_all() {
    let plan = plan_params(&vec![
        receiver(),
        param(vec![ParamAttr::Other, ParamAttr::Tool(Some(ParamMarker::Aggregated)), ParamAttr::Other]),
    ])
    .unwrap();
    assert!(matches!(plan.params, ToolParams::Aggregated(1)));
    assert_eq!(plan.kept_params, vec![0]);
    let scan = plan.scans[1].as_ref().unwrap();
    assert_eq!(scan.kept, vec![0, 2]);
    assert_eq!(scan.marker_kept, 1);
}

#[test]
fn param_after_aggregated_starts_new_list() {
    let plan = plan_params(&vec![
        param(vec![ParamAttr::Tool(Some(ParamMarker::Param))]),
        param(vec![ParamAttr::Tool(Some(ParamMarker::Aggregated))]),
        param(vec![ParamAttr::Tool(Some(ParamMarker::Param))]),
        param(vec![]),
    ])
    .unwrap();
    match plan.params {
        ToolParams::Params(ps) => assert_eq!(ps, vec![2]),
        _ => panic!("expected a new list of fields"),
    }
    assert_eq!(plan.kept_params, vec![3]);
}

#[test]
fn serde_and_schemars_attributes_are_sorted() {
    let plan = plan_params(&vec![param(vec![
        ParamAttr::Serde,
        ParamAttr::Tool(Some(ParamMarker::Param)),
        ParamAttr::Schemars,
        ParamAttr::Other,
    ])])
    .unwrap();
    let scan = plan.scans[0].as_ref().unwrap();
    assert_eq!(scan.serde, vec![0]);
    assert_eq!(scan.schemars, vec![2]);
    assert_eq!(scan.kept, vec![3]);
}

#[test]
fn plan_errors() {
    assert_eq!(
        plan_params(&vec![receiver(), param(vec![ParamAttr::Tool(None)])]).unwrap_err(),
        ToolMacroError::UnknownMarker(1)
    );
    let nameless = FnParam {
        is_receiver: false,
        has_ident: false,
        attrs: vec![ParamAttr::Tool(Some(ParamMarker::Param))],
    };
    assert_eq!(plan_params(&vec![nameless]).unwrap_err(), ToolMacroError::ParamWithoutIdent(0));
    let twice = param(vec![
        ParamAttr::Tool(Some(ParamMarker::Param)),
        ParamAttr::Tool(Some(ParamMarker::Param)),
    ]);
    assert_eq!(plan_params(&vec![twice]).unwrap_err(), ToolMacroError::ParamWithoutIdent(0));
}

#[test]
fn request_type_name_uppercases_ascii_only() {
    assert_eq!(request_type_name("sum2_ab"), "__SUM2_ABToolCallParam");
    assert_eq!(request_type_name("é"), "__éToolCallParam");
}

#[test]
fn unmarked_parameters_stay_in_order() {
    let plan = plan_params(&vec![
        receiver(),
        param(vec![ParamAttr::Serde]),
        param(vec![ParamAttr::Tool(Some(ParamMarker::Param))]),
        param(vec![ParamAttr::Other]),
    ])
    .unwrap();
    assert_eq!(plan.kept_params, vec![0, 1, 3]);
    assert!(plan.scans[0].is_none());
    assert!(plan.scans[1].as_ref().unwrap().marker.is_none());
    match plan.params {
        ToolParams::Params(ps) => assert_eq!(ps, vec![2]),
        _ => panic!("expected one field"),
    }
}

#[test]
fn last_aggregated_wins_when_nothing_follows() {
    let plan = plan_params(&vec![
        param(vec![ParamAttr::Tool(Some(ParamMarker::Aggregated))]),
        param(vec![ParamAttr::Tool(Some(ParamMarker::Aggregated))]),
        param(vec![]),
    ])
    .unwrap();
    assert!(matches!(plan.params, ToolParams::Aggregated(1)));
    assert_eq!(plan.kept_params, vec![2]);
}

#[test]
fn no_marker_no_arguments() {
    let plan = plan_params(&vec![receiver(), param(vec![ParamAttr::Other])]).unwrap();
    assert!(matches!(plan.params, ToolParams::NoParam));
    assert_eq!(plan.kept_params, vec![0, 1]);
}
