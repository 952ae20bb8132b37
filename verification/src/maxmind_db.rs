use vstd::prelude::*;
use crate::ip::IpAddress;
use crate::schemas::anonymous_ip_result::AnonymousIpResult;
use crate::schemas::asn_result::AsnResult;
use crate::schemas::city_result::CityResult;
use crate::schemas::connection_type_result::ConnectionTypeResult;
use crate::schemas::country_result::CountryResult;
use crate::schemas::density_income_result::DensityIncomeResult;
use crate::schemas::enterprise_result::EnterpriseResult;
use crate::schemas::isp_result::IspResult;
use crate::schemas::LookupResult;
use crate::services::lookup::LookupKind;

verus! {

/// The opened database artifact. It holds maxminddb's reader over an
/// in-memory buffer; the library sees it only through the trusted functions
/// below.
#[verifier::external_body]
pub struct DbReader {
    inner: maxminddb::Reader<Vec<u8>>,
}

/// Why a database could not be opened, one variant per failure class of the
/// underlying format library.
#[derive(Debug)]
pub enum DbError {
    AddressNotFound(String),
    InvalidDatabase(String),
    Io(String),
    MemoryMap(String),
    Decoding(String),
    InvalidNetwork(String),
}

/// Relies on maxminddb's Reader::open_readfile: reads the file at the given
/// path into memory and checks that it is a valid database. The outcome
/// depends on what is on disk, so nothing is promised of it.
#[verifier::external_body]
pub fn open_reader_file(path: &str) -> Result<DbReader, DbError> {
    match maxminddb::Reader::open_readfile(path) {
        Ok(inner) => Ok(DbReader { inner }),
        Err(maxminddb::MaxMindDBError::AddressNotFoundError(m)) => Err(DbError::AddressNotFound(m)),
        Err(maxminddb::MaxMindDBError::InvalidDatabaseError(m)) => Err(DbError::InvalidDatabase(m)),
        Err(maxminddb::MaxMindDBError::IoError(m)) => Err(DbError::Io(m)),
        Err(maxminddb::MaxMindDBError::MapError(m)) => Err(DbError::MemoryMap(m)),
        Err(maxminddb::MaxMindDBError::DecodingError(m)) => Err(DbError::Decoding(m)),
        Err(maxminddb::MaxMindDBError::InvalidNetworkError(m)) => Err(DbError::InvalidNetwork(m)),
    }
}

/// Relies on maxminddb's Reader::from_source: decodes a database from the
/// given bytes, deterministically, and checks that it is valid. Nothing of
/// its contents is promised here.
#[verifier::external_body]
pub fn reader_from_bytes(buf: Vec<u8>) -> Result<DbReader, DbError> {
    match maxminddb::Reader::from_source(buf) {
        Ok(inner) => Ok(DbReader { inner }),
        Err(maxminddb::MaxMindDBError::AddressNotFoundError(m)) => Err(DbError::AddressNotFound(m)),
        Err(maxminddb::MaxMindDBError::InvalidDatabaseError(m)) => Err(DbError::InvalidDatabase(m)),
        Err(maxminddb::MaxMindDBError::IoError(m)) => Err(DbError::Io(m)),
        Err(maxminddb::MaxMindDBError::MapError(m)) => Err(DbError::MemoryMap(m)),
        Err(maxminddb::MaxMindDBError::DecodingError(m)) => Err(DbError::Decoding(m)),
        Err(maxminddb::MaxMindDBError::InvalidNetworkError(m)) => Err(DbError::InvalidNetwork(m)),
    }
}

#[verifier::external_type_specification]
#[verifier::external_body]
pub struct ExGeoCity<'a>(maxminddb::geoip2::City<'a>);

#[verifier::external_type_specification]
#[verifier::external_body]
pub struct ExGeoConnectionType<'a>(maxminddb::geoip2::ConnectionType<'a>);

#[verifier::external_type_specification]
#[verifier::external_body]
pub struct ExGeoCityPart<'a>(maxminddb::geoip2::city::City<'a>);

#[verifier::external_type_specification]
#[verifier::external_body]
pub struct ExGeoCountryPart<'a>(maxminddb::geoip2::country::Country<'a>);

#[verifier::external_type_specification]
#[verifier::external_body]
pub struct ExGeoPostalPart<'a>(maxminddb::geoip2::city::Postal<'a>);

#[verifier::external_type_specification]
#[verifier::external_body]
pub struct ExGeoSubdivisionPart<'a>(maxminddb::geoip2::city::Subdivision<'a>);

#[verifier::external_type_specification]
#[verifier::external_body]
pub struct ExGeoCountry<'a>(maxminddb::geoip2::Country<'a>);

#[verifier::external_type_specification]
#[verifier::external_body]
pub struct ExGeoEnterprise<'a>(maxminddb::geoip2::Enterprise<'a>);

#[verifier::external_type_specification]
#[verifier::external_body]
pub struct ExGeoContinentPart<'a>(maxminddb::geoip2::country::Continent<'a>);

#[verifier::external_type_specification]
#[verifier::external_body]
pub struct ExGeoRepresentedPart<'a>(maxminddb::geoip2::country::RepresentedCountry<'a>);

#[verifier::external_type_specification]
#[verifier::external_body]
pub struct ExGeoEntCityPart<'a>(maxminddb::geoip2::enterprise::City<'a>);

#[verifier::external_type_specification]
#[verifier::external_body]
pub struct ExGeoEntCountryPart<'a>(maxminddb::geoip2::enterprise::Country<'a>);

#[verifier::external_type_specification]
#[verifier::external_body]
pub struct ExGeoEntPostalPart<'a>(maxminddb::geoip2::enterprise::Postal<'a>);

#[verifier::external_type_specification]
#[verifier::external_body]
pub struct ExGeoEntSubdivisionPart<'a>(maxminddb::geoip2::enterprise::Subdivision<'a>);

#[verifier::external_type_specification]
#[verifier::external_body]
pub struct ExNetIpAddr(core::net::IpAddr);

/// Relies on core's address constructors: the numeric value becomes the
/// address the format library expects, most significant byte first.
#[verifier::external_body]
fn to_net_addr(ip: &IpAddress) -> core::net::IpAddr {
    match ip {
        IpAddress::V4(v) => core::net::IpAddr::V4(core::net::Ipv4Addr::from(*v)),
        IpAddress::V6(w) => core::net::IpAddr::V6(core::net::Ipv6Addr::from(*w)),
    }
}

/// The build timestamp stored in an opened database.
pub uninterp spec fn spec_build_epoch(r: DbReader) -> u64;

/// The city-shaped contents of an opened database: one owned record per
/// address key that decodes under the city shape.
pub uninterp spec fn city_records(r: DbReader) -> Map<int, LookupResult>;

/// The connection-type contents of an opened database.
pub uninterp spec fn connection_type_records(r: DbReader) -> Map<int, LookupResult>;

/// The anonymity contents of an opened database.
pub uninterp spec fn anonymous_ip_records(r: DbReader) -> Map<int, LookupResult>;

/// The autonomous-system contents of an opened database.
pub uninterp spec fn asn_records(r: DbReader) -> Map<int, LookupResult>;

/// The country-shaped contents of an opened database.
pub uninterp spec fn country_records(r: DbReader) -> Map<int, LookupResult>;

/// The density-and-income contents of an opened database.
pub uninterp spec fn density_income_records(r: DbReader) -> Map<int, LookupResult>;

/// The enterprise-shaped contents of an opened database.
pub uninterp spec fn enterprise_records(r: DbReader) -> Map<int, LookupResult>;

/// The internet-service-provider contents of an opened database.
pub uninterp spec fn isp_records(r: DbReader) -> Map<int, LookupResult>;

/// Relies on maxminddb's Reader metadata: build_epoch is the build
/// timestamp the publisher stored in the database.
#[verifier::external_body]
fn read_build_epoch(reader: &DbReader) -> (e: u64)
    ensures
        e == spec_build_epoch(*reader),
{
    reader.inner.metadata.build_epoch
}

/// Relies on maxminddb's Reader::lookup with the geoip2 City record type: a
/// pure read of the opened buffer, deterministic for a given reader and
/// address; absence and decode failures both come back as None.
#[verifier::external_body]
fn lookup_city(reader: &DbReader, ip: &IpAddress) -> (r: Option<LookupResult>)
    ensures
        r is Some <==> city_records(*reader).dom().contains(ip.key()),
        r is Some ==> r->0 == city_records(*reader)[ip.key()] && r->0 is City,
{
    let addr = to_net_addr(ip);
    reader.inner.lookup::<maxminddb::geoip2::City>(addr).ok().map(CityResult::from_maxmind)
}

/// Relies on maxminddb's Reader::lookup with the geoip2 ConnectionType
/// record type, as the city wrapper above.
#[verifier::external_body]
fn lookup_connection_type(reader: &DbReader, ip: &IpAddress) -> (r: Option<LookupResult>)
    ensures
        r is Some <==> connection_type_records(*reader).dom().contains(ip.key()),
        r is Some ==> r->0 == connection_type_records(*reader)[ip.key()] && r
            ->0 is ConnectionType,
{
    let addr = to_net_addr(ip);
    reader.inner.lookup::<maxminddb::geoip2::ConnectionType>(addr).ok().map(
        ConnectionTypeResult::from_maxmind,
    )
}

/// Relies on maxminddb's Reader::lookup with the geoip2 AnonymousIp record
/// type, as the city wrapper above.
#[verifier::external_body]
fn lookup_anonymous_ip(reader: &DbReader, ip: &IpAddress) -> (r: Option<LookupResult>)
    ensures
        r is Some <==> anonymous_ip_records(*reader).dom().contains(ip.key()),
        r is Some ==> r->0 == anonymous_ip_records(*reader)[ip.key()] && r->0 is AnonymousIp,
{
    let a = reader.inner.lookup::<maxminddb::geoip2::AnonymousIp>(to_net_addr(ip)).ok()?;
    Some(LookupResult::AnonymousIp(AnonymousIpResult {
        is_anonymous: a.is_anonymous,
        is_anonymous_vpn: a.is_anonymous_vpn,
        is_hosting_provider: a.is_hosting_provider,
        is_public_proxy: a.is_public_proxy,
        is_residential_proxy: a.is_residential_proxy,
        is_tor_exit_node: a.is_tor_exit_node,
    }))
}

/// Relies on maxminddb's Reader::lookup with the geoip2 Asn record type,
/// as the city wrapper above.
#[verifier::external_body]
fn lookup_asn(reader: &DbReader, ip: &IpAddress) -> (r: Option<LookupResult>)
    ensures
        r is Some <==> asn_records(*reader).dom().contains(ip.key()),
        r is Some ==> r->0 == asn_records(*reader)[ip.key()] && r->0 is Asn,
{
    let a = reader.inner.lookup::<maxminddb::geoip2::Asn>(to_net_addr(ip)).ok()?;
    Some(LookupResult::Asn(AsnResult {
        autonomous_system_number: a.autonomous_system_number,
        autonomous_system_organization: a.autonomous_system_organization.map(|s| s.to_string()),
    }))
}

/// Relies on maxminddb's Reader::lookup with the geoip2 Country record
/// type, as the city wrapper above.
#[verifier::external_body]
fn lookup_country(reader: &DbReader, ip: &IpAddress) -> (r: Option<LookupResult>)
    ensures
        r is Some <==> country_records(*reader).dom().contains(ip.key()),
        r is Some ==> r->0 == country_records(*reader)[ip.key()] && r->0 is Country,
{
    let addr = to_net_addr(ip);
    reader.inner.lookup::<maxminddb::geoip2::Country>(addr).ok().map(CountryResult::from_maxmind)
}

/// Relies on maxminddb's Reader::lookup with the geoip2 DensityIncome
/// record type, as the city wrapper above.
#[verifier::external_body]
fn lookup_density_income(reader: &DbReader, ip: &IpAddress) -> (r: Option<LookupResult>)
    ensures
        r is Some <==> density_income_records(*reader).dom().contains(ip.key()),
        r is Some ==> r->0 == density_income_records(*reader)[ip.key()] && r->0 is DensityIncome,
{
    let d = reader.inner.lookup::<maxminddb::geoip2::DensityIncome>(to_net_addr(ip)).ok()?;
    Some(LookupResult::DensityIncome(DensityIncomeResult {
        average_income: d.average_income,
        population_density: d.population_density,
    }))
}

/// Relies on maxminddb's Reader::lookup with the geoip2 Enterprise record
/// type, as the city wrapper above.
#[verifier::external_body]
fn lookup_enterprise(reader: &DbReader, ip: &IpAddress) -> (r: Option<LookupResult>)
    ensures
        r is Some <==> enterprise_records(*reader).dom().contains(ip.key()),
        r is Some ==> r->0 == enterprise_records(*reader)[ip.key()] && r->0 is Enterprise,
{
    let addr = to_net_addr(ip);
    reader.inner.lookup::<maxminddb::geoip2::Enterprise>(addr).ok().map(
        EnterpriseResult::from_maxmind,
    )
}

/// Relies on maxminddb's Reader::lookup with the geoip2 Isp record type,
/// as the city wrapper above.
#[verifier::external_body]
fn lookup_isp(reader: &DbReader, ip: &IpAddress) -> (r: Option<LookupResult>)
    ensures
        r is Some <==> isp_records(*reader).dom().contains(ip.key()),
        r is Some ==> r->0 == isp_records(*reader)[ip.key()] && r->0 is Isp,
{
    let a = reader.inner.lookup::<maxminddb::geoip2::Isp>(to_net_addr(ip)).ok()?;
    Some(LookupResult::Isp(IspResult {
        autonomous_system_number: a.autonomous_system_number,
        autonomous_system_organization: a.autonomous_system_organization.map(|s| s.to_string()),
        isp: a.isp.map(|s| s.to_string()),
        mobile_country_code: a.mobile_country_code.map(|s| s.to_string()),
        mobile_network_code: a.mobile_network_code.map(|s| s.to_string()),
        organization: a.organization.map(|s| s.to_string()),
    }))
}

/// An opened, queryable database artifact together with the versioned
/// directory it was loaded from; immutable once constructed.
pub struct MaxmindDBInner {
    pub reader: DbReader,
    pub filename: String,
    pub base_path: String,
}

/// The contents an inner handle serves for one shape.
pub open spec fn shape_records(db: MaxmindDBInner, kind: LookupKind) -> Map<int, LookupResult> {
    match kind {
        LookupKind::AnonymousIp => anonymous_ip_records(db.reader),
        LookupKind::Asn => asn_records(db.reader),
        LookupKind::City => city_records(db.reader),
        LookupKind::ConnectionType => connection_type_records(db.reader),
        LookupKind::Country => country_records(db.reader),
        LookupKind::DensityIncome => density_income_records(db.reader),
        LookupKind::Enterprise => enterprise_records(db.reader),
        LookupKind::Isp => isp_records(db.reader),
    }
}

impl MaxmindDBInner {
    /// The build epoch of this handle.
    pub open spec fn spec_epoch(self) -> u64 {
        spec_build_epoch(self.reader)
    }

    /// Pair an opened database artifact with the directory it was loaded
    /// from.
    pub fn new(reader: DbReader, filename: String, base_path: String) -> (db:
        Self)
        ensures
            db.reader == reader,
            db.filename == filename,
            db.base_path == base_path,
    {
        MaxmindDBInner { reader, filename, base_path }
    }

    pub fn build_epoch(&self) -> (e: u64)
        ensures
            e == self.spec_epoch(),
    {
        read_build_epoch(&self.reader)
    }

    /// Decode one record per address: present addresses map to their
    /// record, absent ones to None, and no address fails the batch.
    pub fn lookup(&self, kind: &LookupKind, ip_addresses: &Vec<IpAddress>) -> (res: Vec<
        (IpAddress, Option<LookupResult>),
    >)
        ensures
            res@.len() == ip_addresses@.len(),
            forall|i: int|
                0 <= i < res@.len() ==> (#[trigger] res@[i]).0 == ip_addresses@[i],
            forall|i: int|
                0 <= i < res@.len() ==> ((#[trigger] res@[i]).1 is Some <==> shape_records(
                    *self,
                    *kind,
                ).dom().contains(ip_addresses@[i].key())),
            forall|i: int|
                0 <= i < res@.len() ==> ((#[trigger] res@[i]).1 is Some ==> res@[i].1->0
                    == shape_records(*self, *kind)[ip_addresses@[i].key()]),
    {
        let mut res: Vec<(IpAddress, Option<LookupResult>)> = Vec::new();
        let mut i: usize = 0;
        while i < ip_addresses.len()
            invariant
                i <= ip_addresses@.len(),
                res@.len() == i,
                forall|k: int| 0 <= k < i ==> (#[trigger] res@[k]).0 == ip_addresses@[k],
                forall|k: int|
                    0 <= k < i ==> ((#[trigger] res@[k]).1 is Some <==> shape_records(
                        *self,
                        *kind,
                    ).dom().contains(ip_addresses@[k].key())),
                forall|k: int|
                    0 <= k < i ==> ((#[trigger] res@[k]).1 is Some ==> res@[k].1->0
                        == shape_records(*self, *kind)[ip_addresses@[k].key()]),
            decreases ip_addresses@.len() - i,
        {
            let ip = ip_addresses[i];
            let record = match kind {
                LookupKind::AnonymousIp => lookup_anonymous_ip(&self.reader, &ip),
                LookupKind::Asn => lookup_asn(&self.reader, &ip),
                LookupKind::City => lookup_city(&self.reader, &ip),
                LookupKind::ConnectionType => lookup_connection_type(&self.reader, &ip),
                LookupKind::Country => lookup_country(&self.reader, &ip),
                LookupKind::DensityIncome => lookup_density_income(&self.reader, &ip),
                LookupKind::Enterprise => lookup_enterprise(&self.reader, &ip),
                LookupKind::Isp => lookup_isp(&self.reader, &ip),
            };
            res.push((ip, record));
            i = i + 1;
        }
        res
    }
}

/// What one install leaves behind: the candidate handle when it is at
/// least as new as the current one, else the current handle unchanged.
pub open spec fn installed_db(current: MaxmindDBInner, candidate: MaxmindDBInner) -> MaxmindDBInner {
    if candidate.spec_epoch() >= current.spec_epoch() {
        candidate
    } else {
        current
    }
}

/// What a run of installs leaves behind, applied one candidate at a time.
pub open spec fn install_all(db: MaxmindDBInner, candidates: Seq<MaxmindDBInner>) -> MaxmindDBInner
    decreases candidates.len(),
{
    if candidates.len() == 0 {
        db
    } else {
        install_all(installed_db(db, candidates[0]), candidates.drop_first())
    }
}

/// The build epoch a reader observes never decreases across refreshes:
/// however many candidate handles the scheduler installs, and whatever
/// their epochs, the served epoch only moves forward.
pub proof fn lemma_served_epoch_monotone(db: MaxmindDBInner, candidates: Seq<MaxmindDBInner>)
    ensures
        install_all(db, candidates).spec_epoch() >= db.spec_epoch(),
    decreases candidates.len(),
{
    if candidates.len() > 0 {
        lemma_served_epoch_monotone(installed_db(db, candidates[0]), candidates.drop_first());
    }
}

/// The single source of truth for the current database: one handle, its
/// variant, and where versions are installed.
pub struct MaxmindDB {
    pub db: MaxmindDBInner,
    pub variant: String,
    pub base_path: String,
}

/// What one refresh pass decides before any network work.
pub enum UpdatePlan {
    TooNew,
    Fetch,
}

impl MaxmindDB {
    pub fn new(db: MaxmindDBInner, variant: String, base_path: String) -> (m: Self)
        ensures
            m.db == db,
            m.variant == variant,
            m.base_path == base_path,
    {
        MaxmindDB { db, variant, base_path }
    }

    /// The epoch of the handle currently installed.
    pub fn build_epoch(&self) -> (e: u64)
        ensures
            e == self.db.spec_epoch(),
    {
        self.db.build_epoch()
    }

    /// Decide one refresh pass without touching the network: while the
    /// loaded epoch plus the minimum age still lies in the future, nothing
    /// is fetched and the handle stays as it is.
    pub fn update_plan(&self, db_min_age_secs: u64, now: u64) -> (p: UpdatePlan)
        ensures
            p is TooNew <==> self.db.spec_epoch() + db_min_age_secs > now,
    {
        if now >= db_min_age_secs && self.db.build_epoch() <= now - db_min_age_secs {
            UpdatePlan::Fetch
        } else {
            UpdatePlan::TooNew
        }
    }

    /// Swap a freshly loaded handle in, keeping the newer of the two: the
    /// served epoch never decreases. Returns the stale handle's directory,
    /// to be deleted only after the swap.
    pub fn update_inner_db(&mut self, new_db: MaxmindDBInner) -> (stale: Option<String>)
        ensures
            final(self).variant == old(self).variant,
            final(self).base_path == old(self).base_path,
            final(self).db == installed_db(old(self).db, new_db),
            final(self).db.spec_epoch() >= old(self).db.spec_epoch(),
            new_db.spec_epoch() >= old(self).db.spec_epoch() ==> {
                &&& stale is Some
                &&& stale->0@ == old(self).db.base_path@
            },
            new_db.spec_epoch() < old(self).db.spec_epoch() ==> stale is None,
    {
        if new_db.build_epoch() >= self.db.build_epoch() {
            let stale = self.db.base_path.clone();
            self.db = new_db;
            Some(stale)
        } else {
            None
        }
    }
}

} // verus!

verus! {

/// Among installed directory names, the newest version of one variant: the
/// lexicographically greatest name carrying the variant prefix.
pub fn select_latest_version(variant: &str, names: &Vec<String>) -> (r: Option<String>)
    ensures
        match r {
            Some(best) => {
                &&& exists|i: int|
                    0 <= i < names@.len() && names@[i]@ == best@ && crate::text::is_prefix(
                        variant@,
                        #[trigger] names@[i]@,
                    )
                &&& forall|i: int|
                    0 <= i < names@.len() && crate::text::is_prefix(variant@, #[trigger] names@[i]@)
                        ==> !crate::text::lex_lt(best@, names@[i]@)
            },
            None => forall|i: int|
                0 <= i < names@.len() ==> !crate::text::is_prefix(variant@, #[trigger] names@[i]@),
        },
{
    let vchars = crate::ip_parse::chars_of(variant);
    let mut best: Option<String> = None;
    let mut i: usize = 0;
    while i < names.len()
        invariant
            i <= names@.len(),
            vchars@ == variant@,
            match best {
                Some(b) => {
                    &&& exists|k: int|
                        0 <= k < i && names@[k]@ == b@ && crate::text::is_prefix(
                            variant@,
                            #[trigger] names@[k]@,
                        )
                    &&& forall|k: int|
                        0 <= k < i && crate::text::is_prefix(variant@, #[trigger] names@[k]@)
                            ==> !crate::text::lex_lt(b@, names@[k]@)
                },
                None => forall|k: int|
                    0 <= k < i ==> !crate::text::is_prefix(variant@, #[trigger] names@[k]@),
            },
        decreases names@.len() - i,
    {
        let name = &names[i];
        let ncs = crate::ip_parse::chars_of(name.as_str());
        let has = crate::text::window_has_prefix(&ncs, 0, ncs.len(), &vchars);
        proof {
            assert(ncs@.subrange(0, ncs@.len() as int) =~= names@[i as int]@);
            assert(has == crate::text::is_prefix(variant@, names@[i as int]@));
        }
        if has {
            let take = match &best {
                None => true,
                Some(b) => crate::text::lex_lt_exec(b.as_str(), name.as_str()),
            };
            if take {
                proof {
                    crate::text::lemma_lex_irrefl(names@[i as int]@);
                    if best is Some {
                        let b = best->0;
                        assert(forall|k: int|
                            0 <= k < i && crate::text::is_prefix(variant@, #[trigger] names@[k]@)
                                ==> !crate::text::lex_lt(b@, names@[k]@));
                        assert forall|k: int|
                            0 <= k < i && crate::text::is_prefix(variant@, #[trigger] names@[k]@)
                                implies !crate::text::lex_lt(names@[i as int]@, names@[k]@) by {
                            if crate::text::lex_lt(names@[i as int]@, names@[k]@) {
                                crate::text::lemma_lex_trans(b@, names@[i as int]@, names@[k]@);
                            }
                        }
                    }
                }
                best = Some(name.clone());
            }
        }
        i = i + 1;
    }
    best
}

/// Relies on std's system clock: seconds since the Unix epoch. The result
/// is whatever the wall clock says, so nothing is promised of it.
#[verifier::external_body]
fn system_epoch_secs() -> u64 {
    std::time::SystemTime::now().duration_since(std::time::UNIX_EPOCH).unwrap().as_secs()
}

/// Seconds since the Unix epoch, as the system clock reports them. The
/// refresh gate compares the loaded build epoch against this value.
pub fn current_time_unix() -> u64 {
    system_epoch_secs()
}

/// Where one variant's database file lives inside a versioned directory,
/// and the filename alone. The variant name carries no dot, so the
/// extension simply follows it.
pub open spec fn spec_db_file_paths(dir: Seq<char>, variant: Seq<char>) -> (Seq<char>, Seq<char>) {
    (crate::download_utils::spec_join_path(dir, variant + ".mmdb"@), variant + ".mmdb"@)
}

/// Build the full path and filename of the database file inside one
/// versioned directory.
pub fn db_file_paths(dir: &str, variant: &str) -> (r: (String, String))
    ensures
        r.0@ == spec_db_file_paths(dir@, variant@).0,
        r.1@ == spec_db_file_paths(dir@, variant@).1,
{
    let mut filename = variant.to_owned();
    filename.append(".mmdb");
    let full = crate::download_utils::join_path(dir, filename.as_str());
    (full, filename)
}

} // verus!
