//! The metrics endpoint: the registry in text exposition format.

use vstd::prelude::*;
use vstd::string::*;

verus! {

/// `prometheus::proto::MetricFamily`, carried through as it is: nothing is
/// known of what it holds.
#[verifier::external_type_specification]
#[verifier::external_body]
pub struct ExMetricFamily(prometheus::proto::MetricFamily);

/// The kind of a metric family.
#[derive(Clone, Copy, PartialEq, Eq, Debug, Structural)]
pub enum FamilyKind {
    Counter,
    Gauge,
    Summary,
    Untyped,
    Histogram,
}

/// The kind that `MetricFamily::get_field_type` reports of a family.
pub uninterp spec fn family_kind(family: prometheus::proto::MetricFamily) -> FamilyKind;

/// What `TextEncoder::encode_to_string` makes of a list of families: the
/// text in exposition format, or the message of the encoder's error.
pub uninterp spec fn encoded_report(families: Seq<prometheus::proto::MetricFamily>) -> Result<
    Seq<char>,
    Seq<char>,
>;

/// `prometheus::gather`: the metric families that the default registry
/// holds at this moment. Nothing is claimed of them.
#[verifier::external_body]
pub(crate) fn gather_default_registry() -> (families: Vec<prometheus::proto::MetricFamily>) {
    prometheus::gather()
}

/// `MetricFamily::get_field_type`: the kind of the family, which depends
/// on the family alone.
#[verifier::external_body]
pub(crate) fn kind_of(family: &prometheus::proto::MetricFamily) -> (kind: FamilyKind)
    ensures
        kind == family_kind(*family),
{
    match family.get_field_type() {
        prometheus::proto::MetricType::COUNTER => FamilyKind::Counter,
        prometheus::proto::MetricType::GAUGE => FamilyKind::Gauge,
        prometheus::proto::MetricType::SUMMARY => FamilyKind::Summary,
        prometheus::proto::MetricType::UNTYPED => FamilyKind::Untyped,
        prometheus::proto::MetricType::HISTOGRAM => FamilyKind::Histogram,
    }
}

/// Whether no family of the list is untyped.
pub open spec fn none_untyped(families: Seq<prometheus::proto::MetricFamily>) -> bool {
    forall|i: int| 0 <= i < families.len() ==> family_kind(#[trigger] families[i]) != FamilyKind::Untyped
}

/// `prometheus::TextEncoder::encode_to_string`: the families in text
/// exposition format, or the message of the encoder's error. The result
/// depends on the families alone. The encoder writes one block per
/// family, so no family gives the empty text. It has no text for an
/// untyped family and does not return when it comes upon one, so such
/// families are kept from it.
#[verifier::external_body]
pub(crate) fn encode_text(
    families: &Vec<prometheus::proto::MetricFamily>,
) -> (report: Result<String, String>)
    requires
        none_untyped(families@),
    ensures
        report_view(report) == encoded_report(families@),
        families@.len() == 0 ==> report is Ok && report->Ok_0@.len() == 0,
{
    match prometheus::TextEncoder::new().encode_to_string(families) {
        Ok(text) => Ok(text),
        Err(error) => Err(error.to_string()),
    }
}

/// The path under which the registry is exposed.
pub open spec fn metrics_path() -> Seq<char> {
    seq!['/', 'm', 'e', 't', 'r', 'i', 'c', 's']
}

/// Status of an exposition that was rendered.
pub const EXPOSITION_OK: u16 = 200;

/// Status of an exposition that could not be rendered.
pub const EXPOSITION_FAILED: u16 = 502;

/// A plain-text response.
pub struct TextOutput {
    pub status_code: u16,
    pub text: String,
}

/// A plain-text response as contracts speak of it.
pub struct TextOutputView {
    pub status_code: u16,
    pub text: Seq<char>,
}

impl View for TextOutput {
    type V = TextOutputView;

    open spec fn view(&self) -> TextOutputView {
        TextOutputView { status_code: self.status_code, text: self.text@ }
    }
}

/// Whether `path` is the path of the metrics endpoint.
pub fn is_metrics_path(path: &str) -> (b: bool)
    ensures
        b == (path@ == metrics_path()),
{
    proof {
        reveal_strlit("/metrics");
        assert("/metrics"@ =~= metrics_path());
    }
    let wanted = String::from_str("/metrics");
    let given = String::from_str(path);
    given == wanted
}

/// The response of the metrics endpoint for a rendered report: the report
/// itself with status 200, whatever it holds.
pub open spec fn exposition_of(report: Result<Seq<char>, Seq<char>>) -> Result<
    TextOutputView,
    TextOutputView,
> {
    match report {
        Ok(text) => Ok(TextOutputView { status_code: EXPOSITION_OK, text }),
        Err(message) => Err(TextOutputView { status_code: EXPOSITION_FAILED, text: message }),
    }
}

/// The views of a report.
pub open spec fn report_view(report: Result<String, String>) -> Result<Seq<char>, Seq<char>> {
    match report {
        Ok(text) => Ok(text@),
        Err(message) => Err(message@),
    }
}

/// The views of a response.
pub open spec fn response_view(response: Result<TextOutput, TextOutput>) -> Result<
    TextOutputView,
    TextOutputView,
> {
    match response {
        Ok(output) => Ok(output@),
        Err(output) => Err(output@),
    }
}

/// Turns a report into the response of the metrics endpoint: a rendered
/// report is a success with status 200 and the report as its text,
/// whether the report is empty or not; an encoder error is a failure with
/// status 502 and the error's message as its text.
pub fn exposition_response(report: Result<String, String>) -> (response: Result<
    TextOutput,
    TextOutput,
>)
    ensures
        response_view(response) == exposition_of(report_view(report)),
{
    match report {
        Ok(text) => Ok(TextOutput { status_code: EXPOSITION_OK, text }),
        Err(message) => Err(TextOutput { status_code: EXPOSITION_FAILED, text: message }),
    }
}

/// What the metrics endpoint says of a list that holds an untyped family.
pub open spec fn untyped_message() -> Seq<char> {
    "MetricFamily is untyped"@
}

/// The response of the metrics endpoint for a list of families: the
/// response for what the encoder makes of them, or a failure with status
/// 502 where a family is untyped.
pub open spec fn rendered_exposition(families: Seq<prometheus::proto::MetricFamily>) -> Result<
    TextOutputView,
    TextOutputView,
> {
    if none_untyped(families) {
        exposition_of(encoded_report(families))
    } else {
        Err(TextOutputView { status_code: EXPOSITION_FAILED, text: untyped_message() })
    }
}

/// Whether a family of the list is untyped.
pub fn has_untyped(families: &Vec<prometheus::proto::MetricFamily>) -> (b: bool)
    ensures
        b == !none_untyped(families@),
{
    let mut i: usize = 0;
    while i < families.len()
        invariant
            i <= families.len(),
            forall|k: int| 0 <= k < i ==> family_kind(#[trigger] families@[k]) != FamilyKind::Untyped,
        decreases families.len() - i,
    {
        match kind_of(&families[i]) {
            FamilyKind::Untyped => {
                return true;
            },
            _ => {},
        }
        i += 1;
    }
    false
}

/// Renders metric families as the response of the metrics endpoint: what
/// the encoder makes of them, as `exposition_response` answers it. A list
/// with an untyped family is answered with status 502 and is not encoded.
/// No family at all gives a success with an empty text.
pub fn render_exposition(families: &Vec<prometheus::proto::MetricFamily>) -> (response: Result<
    TextOutput,
    TextOutput,
>)
    ensures
        response_view(response) == rendered_exposition(families@),
        response matches Ok(output) ==> output.status_code == EXPOSITION_OK,
        response matches Err(output) ==> output.status_code == EXPOSITION_FAILED,
        families@.len() == 0 ==> response_view(response) == exposition_of(Ok(Seq::empty())),
{
    if has_untyped(families) {
        return Err(
            TextOutput {
                status_code: EXPOSITION_FAILED,
                text: String::from_str("MetricFamily is untyped"),
            },
        );
    }
    let report = encode_text(families);
    let response = exposition_response(report);
    proof {
        if families@.len() == 0 {
            assert(report_view(report)->Ok_0 =~= Seq::<char>::empty());
        }
    }
    response
}

/// Renders the default registry as the response of the metrics endpoint:
/// the response is what `render_exposition` gives for the families that
/// the registry held when it was asked.
pub fn expose_default_registry() -> (response: Result<TextOutput, TextOutput>)
    ensures
        exists|families: Seq<prometheus::proto::MetricFamily>|
            response_view(response) == #[trigger] rendered_exposition(families),
        response matches Ok(output) ==> output.status_code == EXPOSITION_OK,
        response matches Err(output) ==> output.status_code == EXPOSITION_FAILED,
{
    let families = gather_default_registry();
    let response = render_exposition(&families);
    assert(response_view(response) == rendered_exposition(families@));
    response
}

/// The metrics endpoint answers every rendered report in one shape: a
/// success with status 200 that carries the report unchanged, whether the
/// registry was empty or populated.
pub proof fn lemma_exposition_has_one_shape(first: Seq<char>, second: Seq<char>)
    ensures
        exposition_of(Ok(first)) is Ok,
        exposition_of(Ok(second)) is Ok,
        exposition_of(Ok(first))->Ok_0.status_code == exposition_of(Ok(second))->Ok_0.status_code,
        exposition_of(Ok(first))->Ok_0.status_code == EXPOSITION_OK,
        exposition_of(Ok(first))->Ok_0.text == first,
        exposition_of(Ok(Seq::empty())) is Ok,
{
}

} // verus!
