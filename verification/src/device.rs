//! The decisions of connecting to a camera: the credentials to use, and which
//! advertised services to talk to, checked against the device's base URI.

use vstd::prelude::*;
use crate::error::{DeviceError, DeviceErrorView};
use crate::text::{joined, equals, starts_with};
use crate::uri::{parse_url, root_url, url_parse_outcome, url_root_of};

verus! {

/// The namespace of the device management service.
pub open spec fn device_ns() -> Seq<char> {
    "http://www.onvif.org/ver10/device/wsdl"@
}

/// The namespace of the event service.
pub open spec fn events_ns() -> Seq<char> {
    "http://www.onvif.org/ver10/events/wsdl"@
}

/// The namespace of the device IO service.
pub open spec fn deviceio_ns() -> Seq<char> {
    "http://www.onvif.org/ver10/deviceIO/wsdl"@
}

/// The namespace of the media service.
pub open spec fn media_ns() -> Seq<char> {
    "http://www.onvif.org/ver10/media/wsdl"@
}

/// The namespace of the second media service.
pub open spec fn media2_ns() -> Seq<char> {
    "http://www.onvif.org/ver20/media/wsdl"@
}

/// The namespace of the imaging service.
pub open spec fn imaging_ns() -> Seq<char> {
    "http://www.onvif.org/ver20/imaging/wsdl"@
}

/// The namespace of the PTZ service.
pub open spec fn ptz_ns() -> Seq<char> {
    "http://www.onvif.org/ver20/ptz/wsdl"@
}

/// The namespace of the analytics service.
pub open spec fn analytics_ns() -> Seq<char> {
    "http://www.onvif.org/ver20/analytics/wsdl"@
}

/// The message when only one of user name and password is given.
pub open spec fn creds_together_msg() -> Seq<char> {
    "Username and password must be specified together"@
}

/// Checks that a user name and a password are given together or not at all.
/// Returns the pair when both are given, `None` when neither is, and an
/// `Unauthorized` error otherwise.
pub fn check_credentials(user: Option<String>, pass: Option<String>) -> (res: Result<
    Option<(String, String)>,
    DeviceError,
>)
    ensures
        (user is Some && pass is Some) ==> res == Ok::<Option<(String, String)>, DeviceError>(
            Some((user->0, pass->0)),
        ),
        (user is None && pass is None) ==> res == Ok::<Option<(String, String)>, DeviceError>(
            None,
        ),
        (user is Some) != (pass is Some) ==> (res matches Err(e) && e@
            == DeviceErrorView::Unauthorized(creds_together_msg())),
{
    match (user, pass) {
        (Some(username), Some(password)) => Ok(Some((username, password))),
        (None, None) => Ok(None),
        _ => Err(
            DeviceError::Unauthorized(
                String::from_str("Username and password must be specified together"),
            ),
        ),
    }
}

/// A service that a camera advertises: its namespace and its address.
#[derive(Debug)]
pub struct ServiceEntry {
    pub namespace: String,
    pub x_addr: String,
}

/// The address (URL serialization) of each optional service that a camera
/// offers, where it offers one.
#[derive(Debug)]
pub struct ServicePlan {
    pub event: Option<String>,
    pub deviceio: Option<String>,
    pub media: Option<String>,
    pub media2: Option<String>,
    pub imaging: Option<String>,
    pub ptz: Option<String>,
    pub analytics: Option<String>,
}

/// The abstract value of a `ServicePlan`.
pub struct ServicePlanView {
    pub event: Option<Seq<char>>,
    pub deviceio: Option<Seq<char>>,
    pub media: Option<Seq<char>>,
    pub media2: Option<Seq<char>>,
    pub imaging: Option<Seq<char>>,
    pub ptz: Option<Seq<char>>,
    pub analytics: Option<Seq<char>>,
}

impl View for ServicePlan {
    type V = ServicePlanView;

    open spec fn view(&self) -> ServicePlanView {
        ServicePlanView {
            event: self.event.deep_view(),
            deviceio: self.deviceio.deep_view(),
            media: self.media.deep_view(),
            media2: self.media2.deep_view(),
            imaging: self.imaging.deep_view(),
            ptz: self.ptz.deep_view(),
            analytics: self.analytics.deep_view(),
        }
    }
}

/// The plan with no optional service.
pub open spec fn empty_plan() -> ServicePlanView {
    ServicePlanView {
        event: None,
        deviceio: None,
        media: None,
        media2: None,
        imaging: None,
        ptz: None,
        analytics: None,
    }
}

/// The message when a service lies outside the device's base URI.
pub open spec fn outside_base_msg(x_addr: Seq<char>, base: Seq<char>) -> Seq<char> {
    "Service URI "@ + x_addr + " is not within base URI "@ + base
}

/// The message when the advertised device management address differs from
/// the one that was used.
pub open spec fn devicemgmt_mismatch_msg(x_addr: Seq<char>, devicemgmt: Seq<char>) -> Seq<char> {
    "advertised device mgmt uri "@ + x_addr + " not expected "@ + devicemgmt
}

/// One service entry applied to the plan so far: its address must parse and
/// lie within `base`; the device management entry must name `devicemgmt`
/// itself; an entry of a known optional service sets that service's address
/// (a later entry replaces an earlier one); other namespaces are ignored.
pub open spec fn service_step(
    devicemgmt: Seq<char>,
    base: Seq<char>,
    plan: ServicePlanView,
    namespace: Seq<char>,
    x_addr: Seq<char>,
) -> Result<ServicePlanView, DeviceErrorView> {
    match url_parse_outcome(x_addr) {
        Err(msg) => Err(DeviceErrorView::Unknown(Some(msg))),
        Ok(url) => if !base.is_prefix_of(url) {
            Err(DeviceErrorView::UnexpectedBehavior(outside_base_msg(x_addr, base)))
        } else if namespace == device_ns() {
            if x_addr != devicemgmt {
                Err(DeviceErrorView::UnexpectedBehavior(devicemgmt_mismatch_msg(x_addr, devicemgmt)))
            } else {
                Ok(plan)
            }
        } else if namespace == events_ns() {
            Ok(ServicePlanView { event: Some(url), ..plan })
        } else if namespace == deviceio_ns() {
            Ok(ServicePlanView { deviceio: Some(url), ..plan })
        } else if namespace == media_ns() {
            Ok(ServicePlanView { media: Some(url), ..plan })
        } else if namespace == media2_ns() {
            Ok(ServicePlanView { media2: Some(url), ..plan })
        } else if namespace == imaging_ns() {
            Ok(ServicePlanView { imaging: Some(url), ..plan })
        } else if namespace == ptz_ns() {
            Ok(ServicePlanView { ptz: Some(url), ..plan })
        } else if namespace == analytics_ns() {
            Ok(ServicePlanView { analytics: Some(url), ..plan })
        } else {
            Ok(plan)
        },
    }
}

/// The entries applied in order to `plan`, stopping at the first error.
pub open spec fn apply_services(
    devicemgmt: Seq<char>,
    base: Seq<char>,
    plan: ServicePlanView,
    entries: Seq<ServiceEntry>,
) -> Result<ServicePlanView, DeviceErrorView>
    decreases entries.len(),
{
    if entries.len() == 0 {
        Ok(plan)
    } else {
        match service_step(devicemgmt, base, plan, entries[0].namespace@, entries[0].x_addr@) {
            Err(e) => Err(e),
            Ok(next) => apply_services(devicemgmt, base, next, entries.drop_first()),
        }
    }
}

/// The outcome of planning the services of a device reached at `devicemgmt`
/// (a URL serialization) that advertises `entries`: the base URI is
/// `devicemgmt` with its path set to `/`.
pub open spec fn plan_spec(devicemgmt: Seq<char>, entries: Seq<ServiceEntry>) -> Result<
    ServicePlanView,
    DeviceErrorView,
> {
    apply_services(devicemgmt, url_root_of(devicemgmt), empty_plan(), entries)
}

/// The abstract value of a planning outcome.
pub open spec fn plan_result_view(res: Result<ServicePlan, DeviceError>) -> Result<
    ServicePlanView,
    DeviceErrorView,
> {
    match res {
        Ok(plan) => Ok(plan@),
        Err(e) => Err(e@),
    }
}

/// Whether an advertised entry passes the checks: its address parses as a URL
/// within `base`, and a device management entry names `devicemgmt` itself.
pub open spec fn entry_acceptable(devicemgmt: Seq<char>, base: Seq<char>, entry: ServiceEntry) -> bool {
    &&& url_parse_outcome(entry.x_addr@) is Ok
    &&& base.is_prefix_of(url_parse_outcome(entry.x_addr@)->Ok_0)
    &&& entry.namespace@ == device_ns() ==> entry.x_addr@ == devicemgmt
}

/// Whether every address that a plan holds lies within `base`.
pub open spec fn plan_within(plan: ServicePlanView, base: Seq<char>) -> bool {
    &&& plan.event matches Some(u) ==> base.is_prefix_of(u)
    &&& plan.deviceio matches Some(u) ==> base.is_prefix_of(u)
    &&& plan.media matches Some(u) ==> base.is_prefix_of(u)
    &&& plan.media2 matches Some(u) ==> base.is_prefix_of(u)
    &&& plan.imaging matches Some(u) ==> base.is_prefix_of(u)
    &&& plan.ptz matches Some(u) ==> base.is_prefix_of(u)
    &&& plan.analytics matches Some(u) ==> base.is_prefix_of(u)
}

proof fn lemma_apply_services(
    devicemgmt: Seq<char>,
    base: Seq<char>,
    plan: ServicePlanView,
    entries: Seq<ServiceEntry>,
)
    requires
        plan_within(plan, base),
    ensures
        apply_services(devicemgmt, base, plan, entries) is Ok <==> (forall|i: int|
            0 <= i < entries.len() ==> #[trigger] entry_acceptable(devicemgmt, base, entries[i])),
        apply_services(devicemgmt, base, plan, entries) matches Ok(p) ==> plan_within(p, base),
    decreases entries.len(),
{
    if entries.len() > 0 {
        let rest = entries.drop_first();
        let step = service_step(devicemgmt, base, plan, entries[0].namespace@, entries[0].x_addr@);
        match step {
            Ok(next) => {
                lemma_apply_services(devicemgmt, base, next, rest);
                assert(entry_acceptable(devicemgmt, base, entries[0]));
                if forall|i: int| 0 <= i < rest.len() ==> #[trigger] entry_acceptable(
                    devicemgmt,
                    base,
                    rest[i],
                ) {
                    assert forall|i: int| 0 <= i < entries.len() implies #[trigger] entry_acceptable(
                        devicemgmt,
                        base,
                        entries[i],
                    ) by {
                        if i > 0 {
                            assert(entries[i] == rest[i - 1]);
                        }
                    }
                } else {
                    let k = choose|k: int| 0 <= k < rest.len() && !#[trigger] entry_acceptable(
                        devicemgmt,
                        base,
                        rest[k],
                    );
                    assert(entries[k + 1] == rest[k]);
                }
            },
            Err(_) => {
                assert(!entry_acceptable(devicemgmt, base, entries[0]));
            },
        }
    }
}

/// A camera's services are accepted exactly when every advertised entry
/// passes the checks (its address parses as a URL within the base URI, and
/// the device management entry names the address that was used); and every
/// address of an accepted plan lies within the base URI.
pub proof fn lemma_plan_accepts_exactly_valid_services(
    devicemgmt: Seq<char>,
    entries: Seq<ServiceEntry>,
)
    ensures
        plan_spec(devicemgmt, entries) is Ok <==> (forall|i: int|
            0 <= i < entries.len() ==> #[trigger] entry_acceptable(
                devicemgmt,
                url_root_of(devicemgmt),
                entries[i],
            )),
        plan_spec(devicemgmt, entries) matches Ok(p) ==> plan_within(p, url_root_of(devicemgmt)),
{
    lemma_apply_services(devicemgmt, url_root_of(devicemgmt), empty_plan(), entries);
}

/// Whether `ns` is the namespace of one of the optional services of a plan.
pub open spec fn optional_ns(ns: Seq<char>) -> bool {
    ||| ns == events_ns()
    ||| ns == deviceio_ns()
    ||| ns == media_ns()
    ||| ns == media2_ns()
    ||| ns == imaging_ns()
    ||| ns == ptz_ns()
    ||| ns == analytics_ns()
}

/// The address that a plan holds for the service of namespace `ns`.
pub open spec fn plan_service(plan: ServicePlanView, ns: Seq<char>) -> Option<Seq<char>> {
    if ns == events_ns() {
        plan.event
    } else if ns == deviceio_ns() {
        plan.deviceio
    } else if ns == media_ns() {
        plan.media
    } else if ns == media2_ns() {
        plan.media2
    } else if ns == imaging_ns() {
        plan.imaging
    } else if ns == ptz_ns() {
        plan.ptz
    } else if ns == analytics_ns() {
        plan.analytics
    } else {
        None
    }
}

/// The parsed address of the last entry of namespace `ns`, or `found` when
/// no entry has that namespace.
pub open spec fn last_address(
    entries: Seq<ServiceEntry>,
    ns: Seq<char>,
    found: Option<Seq<char>>,
) -> Option<Seq<char>>
    decreases entries.len(),
{
    if entries.len() == 0 {
        found
    } else {
        last_address(
            entries.drop_first(),
            ns,
            if entries[0].namespace@ == ns {
                Some(url_parse_outcome(entries[0].x_addr@)->Ok_0)
            } else {
                found
            },
        )
    }
}

/// The namespaces that the plan tells apart are distinct texts.
pub proof fn lemma_namespaces_distinct()
    ensures
        device_ns() != events_ns(),
        device_ns() != deviceio_ns(),
        device_ns() != media_ns(),
        device_ns() != media2_ns(),
        device_ns() != imaging_ns(),
        device_ns() != ptz_ns(),
        device_ns() != analytics_ns(),
        events_ns() != deviceio_ns(),
        events_ns() != media_ns(),
        events_ns() != media2_ns(),
        events_ns() != imaging_ns(),
        events_ns() != ptz_ns(),
        events_ns() != analytics_ns(),
        deviceio_ns() != media_ns(),
        deviceio_ns() != media2_ns(),
        deviceio_ns() != imaging_ns(),
        deviceio_ns() != ptz_ns(),
        deviceio_ns() != analytics_ns(),
        media_ns() != media2_ns(),
        media_ns() != imaging_ns(),
        media_ns() != ptz_ns(),
        media_ns() != analytics_ns(),
        media2_ns() != imaging_ns(),
        media2_ns() != ptz_ns(),
        media2_ns() != analytics_ns(),
        imaging_ns() != ptz_ns(),
        imaging_ns() != analytics_ns(),
        ptz_ns() != analytics_ns(),
{
    reveal_strlit("http://www.onvif.org/ver10/device/wsdl");
    reveal_strlit("http://www.onvif.org/ver10/events/wsdl");
    reveal_strlit("http://www.onvif.org/ver10/deviceIO/wsdl");
    reveal_strlit("http://www.onvif.org/ver10/media/wsdl");
    reveal_strlit("http://www.onvif.org/ver20/media/wsdl");
    reveal_strlit("http://www.onvif.org/ver20/imaging/wsdl");
    reveal_strlit("http://www.onvif.org/ver20/ptz/wsdl");
    reveal_strlit("http://www.onvif.org/ver20/analytics/wsdl");
    assert(device_ns().len() == 38);
    assert(events_ns().len() == 38);
    assert(deviceio_ns().len() == 40);
    assert(media_ns().len() == 37);
    assert(media2_ns().len() == 37);
    assert(imaging_ns().len() == 39);
    assert(ptz_ns().len() == 35);
    assert(analytics_ns().len() == 41);
    assert(device_ns()[27] != events_ns()[27]);
    assert(media_ns()[24] != media2_ns()[24]);
}

proof fn lemma_step_sets_only_its_service(
    devicemgmt: Seq<char>,
    base: Seq<char>,
    plan: ServicePlanView,
    entry: ServiceEntry,
    ns: Seq<char>,
)
    requires
        optional_ns(ns),
    ensures
        service_step(devicemgmt, base, plan, entry.namespace@, entry.x_addr@) matches Ok(next)
            ==> plan_service(next, ns) == if entry.namespace@ == ns {
            Some(url_parse_outcome(entry.x_addr@)->Ok_0)
        } else {
            plan_service(plan, ns)
        },
{
    lemma_namespaces_distinct();
}

proof fn lemma_apply_keeps_last_address(
    devicemgmt: Seq<char>,
    base: Seq<char>,
    plan: ServicePlanView,
    entries: Seq<ServiceEntry>,
    ns: Seq<char>,
)
    requires
        optional_ns(ns),
    ensures
        apply_services(devicemgmt, base, plan, entries) matches Ok(p) ==> plan_service(p, ns)
            == last_address(entries, ns, plan_service(plan, ns)),
    decreases entries.len(),
{
    if entries.len() > 0 {
        lemma_step_sets_only_its_service(devicemgmt, base, plan, entries[0], ns);
        if let Ok(next) = service_step(
            devicemgmt,
            base,
            plan,
            entries[0].namespace@,
            entries[0].x_addr@,
        ) {
            lemma_apply_keeps_last_address(devicemgmt, base, next, entries.drop_first(), ns);
        }
    }
}

proof fn lemma_last_address_is_last_entry(
    entries: Seq<ServiceEntry>,
    ns: Seq<char>,
    found: Option<Seq<char>>,
)
    ensures
        (forall|i: int| 0 <= i < entries.len() ==> #[trigger] entries[i].namespace@ != ns)
            ==> last_address(entries, ns, found) == found,
        (exists|i: int| 0 <= i < entries.len() && #[trigger] entries[i].namespace@ == ns)
            ==> exists|k: int|
            0 <= k < entries.len() && #[trigger] entries[k].namespace@ == ns && (forall|j: int|
                k < j < entries.len() ==> #[trigger] entries[j].namespace@ != ns) && last_address(
                entries,
                ns,
                found,
            ) == Some(url_parse_outcome(entries[k].x_addr@)->Ok_0),
    decreases entries.len(),
{
    if entries.len() > 0 {
        let rest = entries.drop_first();
        let next = if entries[0].namespace@ == ns {
            Some(url_parse_outcome(entries[0].x_addr@)->Ok_0)
        } else {
            found
        };
        lemma_last_address_is_last_entry(rest, ns, next);
        assert forall|i: int| 0 < i < entries.len() implies entries[i] == rest[i - 1] by {}
        if exists|i: int| 0 <= i < rest.len() && #[trigger] rest[i].namespace@ == ns {
            let k = choose|k: int|
                0 <= k < rest.len() && #[trigger] rest[k].namespace@ == ns && (forall|j: int|
                    k < j < rest.len() ==> #[trigger] rest[j].namespace@ != ns) && last_address(
                    rest,
                    ns,
                    next,
                ) == Some(url_parse_outcome(rest[k].x_addr@)->Ok_0);
            assert(entries[k + 1] == rest[k]);
            assert forall|j: int| k + 1 < j < entries.len() implies #[trigger] entries[j].namespace@
                != ns by {
                assert(entries[j] == rest[j - 1]);
            }
        } else {
            assert forall|i: int| 0 < i < entries.len() implies #[trigger] entries[i].namespace@
                != ns by {
                assert(entries[i] == rest[i - 1]);
            }
            if entries[0].namespace@ == ns {
                assert forall|j: int| 0 < j < entries.len() implies #[trigger] entries[j].namespace@
                    != ns by {
                    assert(entries[j] == rest[j - 1]);
                }
            }
        }
    }
}

/// In an accepted plan, an optional service has an address exactly when some
/// advertised entry has its namespace, and the address is the parsed address
/// of the last such entry (a later entry replaces an earlier one).
pub proof fn lemma_planned_service_is_last_entry(
    devicemgmt: Seq<char>,
    entries: Seq<ServiceEntry>,
    ns: Seq<char>,
)
    requires
        optional_ns(ns),
    ensures
        plan_spec(devicemgmt, entries) matches Ok(p) ==> {
            &&& plan_service(p, ns) is Some <==> exists|i: int|
                0 <= i < entries.len() && #[trigger] entries[i].namespace@ == ns
            &&& plan_service(p, ns) matches Some(url) ==> exists|k: int|
                0 <= k < entries.len() && #[trigger] entries[k].namespace@ == ns && (forall|j: int|
                    k < j < entries.len() ==> #[trigger] entries[j].namespace@ != ns)
                    && url_parse_outcome(entries[k].x_addr@) == Ok::<Seq<char>, Seq<char>>(url)
        },
{
    let base = url_root_of(devicemgmt);
    lemma_namespaces_distinct();
    lemma_apply_keeps_last_address(devicemgmt, base, empty_plan(), entries, ns);
    lemma_last_address_is_last_entry(entries, ns, None);
    lemma_plan_accepts_exactly_valid_services(devicemgmt, entries);
    if let Ok(p) = plan_spec(devicemgmt, entries) {
        assert(plan_service(empty_plan(), ns) is None);
        if exists|i: int| 0 <= i < entries.len() && #[trigger] entries[i].namespace@ == ns {
            let k = choose|k: int|
                0 <= k < entries.len() && #[trigger] entries[k].namespace@ == ns && (forall|j: int|
                    k < j < entries.len() ==> #[trigger] entries[j].namespace@ != ns)
                    && last_address(entries, ns, None) == Some(
                    url_parse_outcome(entries[k].x_addr@)->Ok_0,
                );
            assert(entry_acceptable(devicemgmt, base, entries[k]));
        }
    }
}

/// Whether `ns` is a namespace that service planning knows: device
/// management or one of the optional services. Entries of other namespaces
/// are passed over.
pub fn is_known_namespace(ns: &str) -> (res: bool)
    ensures
        res == (ns@ == device_ns() || optional_ns(ns@)),
{
    equals(ns, "http://www.onvif.org/ver10/device/wsdl") || equals(
        ns,
        "http://www.onvif.org/ver10/events/wsdl",
    ) || equals(ns, "http://www.onvif.org/ver10/deviceIO/wsdl") || equals(
        ns,
        "http://www.onvif.org/ver10/media/wsdl",
    ) || equals(ns, "http://www.onvif.org/ver20/media/wsdl") || equals(
        ns,
        "http://www.onvif.org/ver20/imaging/wsdl",
    ) || equals(ns, "http://www.onvif.org/ver20/ptz/wsdl") || equals(
        ns,
        "http://www.onvif.org/ver20/analytics/wsdl",
    )
}

fn service_step_exec(devicemgmt: &str, base: &str, plan: ServicePlan, entry: &ServiceEntry) -> (res:
    Result<ServicePlan, DeviceError>)
    ensures
        plan_result_view(res) == service_step(
            devicemgmt@,
            base@,
            plan@,
            entry.namespace@,
            entry.x_addr@,
        ),
{
    let url = match parse_url(entry.x_addr.as_str()) {
        Ok(url) => url,
        Err(msg) => {
            return Err(DeviceError::from(msg));
        },
    };
    if !starts_with(url.as_str(), base) {
        let mut msg = joined("Service URI ", entry.x_addr.as_str());
        msg.append(" is not within base URI ");
        msg.append(base);
        return Err(DeviceError::UnexpectedBehavior(msg));
    }
    let ns = entry.namespace.as_str();
    let mut plan = plan;
    if equals(ns, "http://www.onvif.org/ver10/device/wsdl") {
        if !equals(entry.x_addr.as_str(), devicemgmt) {
            let mut msg = joined("advertised device mgmt uri ", entry.x_addr.as_str());
            msg.append(" not expected ");
            msg.append(devicemgmt);
            return Err(DeviceError::UnexpectedBehavior(msg));
        }
    } else if equals(ns, "http://www.onvif.org/ver10/events/wsdl") {
        plan.event = Some(url);
    } else if equals(ns, "http://www.onvif.org/ver10/deviceIO/wsdl") {
        plan.deviceio = Some(url);
    } else if equals(ns, "http://www.onvif.org/ver10/media/wsdl") {
        plan.media = Some(url);
    } else if equals(ns, "http://www.onvif.org/ver20/media/wsdl") {
        plan.media2 = Some(url);
    } else if equals(ns, "http://www.onvif.org/ver20/imaging/wsdl") {
        plan.imaging = Some(url);
    } else if equals(ns, "http://www.onvif.org/ver20/ptz/wsdl") {
        plan.ptz = Some(url);
    } else if equals(ns, "http://www.onvif.org/ver20/analytics/wsdl") {
        plan.analytics = Some(url);
    }
    Ok(plan)
}

/// Decides which services of a camera to use, from the address of its
/// device management service (a URL serialization) and the services it
/// advertises. Every advertised address must parse as a URL within the base
/// URI (the device management address with path `/`), and the advertised
/// device management address must be the one used; the first entry that
/// breaks a rule gives the error.
pub fn plan_services(devicemgmt_uri: &str, services: &Vec<ServiceEntry>) -> (res: Result<
    ServicePlan,
    DeviceError,
>)
    ensures
        plan_result_view(res) == plan_spec(devicemgmt_uri@, services@),
{
    let base = root_url(devicemgmt_uri);
    let mut plan = ServicePlan {
        event: None,
        deviceio: None,
        media: None,
        media2: None,
        imaging: None,
        ptz: None,
        analytics: None,
    };
    let n = services.len();
    let mut i: usize = 0;
    proof {
        assert(services@.skip(0) =~= services@);
    }
    while i < n
        invariant
            n == services@.len(),
            i <= n,
            base@ == url_root_of(devicemgmt_uri@),
            plan_spec(devicemgmt_uri@, services@) == apply_services(
                devicemgmt_uri@,
                base@,
                plan@,
                services@.skip(i as int),
            ),
        decreases n - i,
    {
        let entry = &services[i];
        proof {
            let rest = services@.skip(i as int);
            assert(rest[0] == services@[i as int]);
            assert(rest.drop_first() =~= services@.skip(i + 1));
        }
        match service_step_exec(devicemgmt_uri, base.as_str(), plan, entry) {
            Ok(next) => {
                plan = next;
            },
            Err(e) => {
                return Err(e);
            },
        }
        i = i + 1;
    }
    Ok(plan)
}

} // verus!
