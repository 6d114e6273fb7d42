use vstd::prelude::*;

use rusoto_core::region::ParseRegionError;
use rusoto_core::Region;

use crate::error::LoggerError;

verus! {

/// `rusoto_core::Region`, an AWS region; carried through unread.
#[verifier::external_type_specification]
#[verifier::external_body]
pub struct ExRegion(Region);

/// `rusoto_core::region::ParseRegionError`, the error of a failed region parse;
/// carried through unread.
#[verifier::external_type_specification]
#[verifier::external_body]
pub struct ExParseRegionError(ParseRegionError);

/// Default AWS region used for logging.
pub const FALLBACK_REGION: &'static str = "us-east-1";

/// What `Region::from_str` returns for the given region name.
pub uninterp spec fn parsed_region(name: Seq<char>) -> Result<Region, ParseRegionError>;

/// Calls `rusoto_core::Region::from_str`. Its result depends on the name
/// alone (the name is lower-cased and matched against the known region
/// names); the contract names that result and states the one fact the source
/// plainly shows that callers need: `"us-east-1"` is accepted.
#[verifier::external_body]
fn parse_region(name: &str) -> (parsed: Result<Region, ParseRegionError>)
    ensures
        parsed == parsed_region(name@),
        name@ == "us-east-1"@ ==> parsed is Ok,
{
    <Region as std::str::FromStr>::from_str(name)
}

/// The region name that setup uses: the value of `AWS_REGION` when it is set,
/// `FALLBACK_REGION` otherwise.
pub open spec fn chosen_region_name(aws_region: Option<String>) -> Seq<char> {
    match aws_region {
        Some(name) => name@,
        None => "us-east-1"@,
    }
}

/// Picks the region name: the environment's value, or the fallback region.
pub fn region_name(aws_region: Option<String>) -> (name: String)
    ensures
        name@ == chosen_region_name(aws_region),
        aws_region matches Some(n) ==> name@ == n@,
        aws_region is None ==> name@ == "us-east-1"@,
{
    match aws_region {
        Some(name) => name,
        None => String::from_str(FALLBACK_REGION),
    }
}

/// Maps a failed region parse to `LoggerError::InvalidRegion`, keeping a
/// parsed region unchanged.
pub fn region_or_invalid(parsed: Result<Region, ParseRegionError>) -> (res: Result<Region, LoggerError>)
    ensures
        parsed is Ok <==> res is Ok,
        res matches Ok(r) ==> parsed == Ok::<Region, ParseRegionError>(r),
        res matches Err(e) ==> e is InvalidRegion,
{
    match parsed {
        Ok(region) => Ok(region),
        Err(_) => Err(LoggerError::InvalidRegion),
    }
}

/// Resolves the region the CloudWatch client talks to, from the value of the
/// `AWS_REGION` environment variable (`None` when it is unset or unreadable).
pub fn resolve_region(aws_region: Option<String>) -> (res: Result<Region, LoggerError>)
    ensures
        res is Ok <==> parsed_region(chosen_region_name(aws_region)) is Ok,
        res matches Ok(r) ==> parsed_region(chosen_region_name(aws_region)) == Ok::<Region, ParseRegionError>(r),
        aws_region matches Some(n) ==> (res is Ok <==> parsed_region(n@) is Ok),
        aws_region matches Some(n) ==> (res matches Ok(r) ==> parsed_region(n@) == Ok::<Region, ParseRegionError>(r)),
        res matches Err(e) ==> e is InvalidRegion,
        aws_region is None ==> (res matches Ok(r) && parsed_region("us-east-1"@) == Ok::<Region, ParseRegionError>(r)),
{
    let name = region_name(aws_region);
    proof {
        reveal_strlit("us-east-1");
    }
    region_or_invalid(parse_region(name.as_str()))
}

} // verus!
